//! The messages that tell a program in the terminal about the mouse and the focus.
use crate::index::{Column, Line};
use crate::term::{ElementState, ModifiersState, MouseButton, TermMode};
use crate::text;
use vstd::prelude::*;

verus! {

/// The first position that the plain encoding cannot report.
pub open spec fn report_limit(utf8: bool) -> int {
    if utf8 {
        2015
    } else {
        223
    }
}

/// A position in the plain encoding: a character 33 places further on, which in UTF-8 mode takes
/// two bytes from 128 on.
pub open spec fn position_bytes(pos: int, utf8: bool) -> Seq<u8> {
    if utf8 && pos >= 95 {
        seq![(0xc0 + (33 + pos) / 64) as u8, (0x80 + (33 + pos) % 64) as u8]
    } else {
        seq![(33 + pos) as u8]
    }
}

/// The plain report of a button, unless the position is out of its reach.
pub open spec fn normal_report(button: int, line: int, column: int, utf8: bool) -> Option<
    Seq<u8>,
> {
    if line >= report_limit(utf8) || column >= report_limit(utf8) {
        None
    } else {
        Some(
            seq![0x1b, 0x5b, 0x4d, (32 + button) as u8] + position_bytes(column, utf8)
                + position_bytes(line, utf8),
        )
    }
}

/// The extended report of a button: `ESC [ < button ; column ; line` and `M` or `m`.
pub open spec fn sgr_report(button: int, line: int, column: int, state: ElementState) -> Seq<u8> {
    (seq![0x1bu8, 0x5bu8, 0x3cu8] + text::decimal_bytes(button as nat)).push(0x3b)
        + text::decimal_bytes((column + 1) as nat).push(0x3b) + text::decimal_bytes(
        (line + 1) as nat,
    ).push(
        if state is Pressed {
            0x4d
        } else {
            0x6d
        },
    )
}

/// What the modifiers add to the number of a button.
pub open spec fn modifier_bits(mods: ModifiersState) -> int {
    (if mods.shift {
        4int
    } else {
        0
    }) + (if mods.alt {
        8int
    } else {
        0
    }) + (if mods.ctrl {
        16int
    } else {
        0
    })
}

/// The report of a button, in the encoding that the program chose. In the plain one, a release
/// does not say of which button.
pub open spec fn button_report(
    button: int,
    state: ElementState,
    mods: ModifiersState,
    line: int,
    column: int,
    mode: TermMode,
) -> Option<Seq<u8>> {
    if mode.sgr_mouse {
        Some(sgr_report(button + modifier_bits(mods), line, column, state))
    } else {
        normal_report(
            (if state is Released {
                3
            } else {
                button
            }) + modifier_bits(mods),
            line,
            column,
            mode.utf8_mouse,
        )
    }
}

fn push_position(bytes: &mut Vec<u8>, pos: usize, utf8: bool)
    requires
        pos < report_limit(utf8),
    ensures
        final(bytes)@ == old(bytes)@ + position_bytes(pos as int, utf8),
{
    let ghost before = bytes@;
    if utf8 && pos >= 95 {
        let code: usize = 33 + pos;
        let low: usize = code & 63;
        assert(code & 63 == code % 64) by (bit_vector);
        bytes.push((0xc0 + code / 64) as u8);
        bytes.push((0x80 + low) as u8);
    } else {
        bytes.push((33 + pos) as u8);
    }
    assert(bytes@ =~= before + position_bytes(pos as int, utf8));
}

/// The plain report of a button, unless the position is out of its reach.
pub fn normal_mouse_report(button: u8, line: Line, column: Column, utf8: bool) -> (r: Option<
    Vec<u8>,
>)
    requires
        button <= 223,
    ensures
        normal_report(button as int, line.0 as int, column.0 as int, utf8) is Some <==> r is Some,
        r is Some ==> r->0@ == normal_report(
            button as int,
            line.0 as int,
            column.0 as int,
            utf8,
        )->0,
{
    let max_point: usize = if utf8 {
        2015
    } else {
        223
    };
    if line.0 >= max_point || column.0 >= max_point {
        return None;
    }
    let mut msg: Vec<u8> = vec![0x1b, 0x5b, 0x4d, 32 + button];
    push_position(&mut msg, column.0, utf8);
    push_position(&mut msg, line.0, utf8);
    assert(msg@ =~= normal_report(button as int, line.0 as int, column.0 as int, utf8)->0);
    Some(msg)
}

/// The extended report of a button.
pub fn sgr_mouse_report(button: u8, line: Line, column: Column, state: ElementState) -> (r: Vec<u8>)
    requires
        line.0 < usize::MAX,
        column.0 < usize::MAX,
    ensures
        r@ == sgr_report(button as int, line.0 as int, column.0 as int, state),
{
    let c: u8 = match state {
        ElementState::Pressed => 0x4d,
        ElementState::Released => 0x6d,
    };
    let mut msg: Vec<u8> = vec![0x1b, 0x5b, 0x3c];
    text::push_decimal_bytes(&mut msg, button as usize);
    msg.push(0x3b);
    text::push_decimal_bytes(&mut msg, column.0 + 1);
    msg.push(0x3b);
    text::push_decimal_bytes(&mut msg, line.0 + 1);
    msg.push(c);
    assert(msg@ =~= sgr_report(button as int, line.0 as int, column.0 as int, state));
    msg
}

/// The report of a button.
pub fn mouse_report(
    button: u8,
    state: ElementState,
    mods: &ModifiersState,
    line: Line,
    column: Column,
    mode: &TermMode,
) -> (r: Option<Vec<u8>>)
    requires
        button <= 195,
        mode.sgr_mouse ==> line.0 < usize::MAX && column.0 < usize::MAX,
    ensures
        ({
            let report = button_report(
                button as int,
                state,
                *mods,
                line.0 as int,
                column.0 as int,
                *mode,
            );
            &&& r is Some <==> report is Some
            &&& r is Some ==> r->0@ == report->0
        }),
{
    let mut bits: u8 = 0;
    if mods.shift {
        bits = bits + 4;
    }
    if mods.alt {
        bits = bits + 8;
    }
    if mods.ctrl {
        bits = bits + 16;
    }
    if mode.sgr_mouse {
        Some(sgr_mouse_report(button + bits, line, column, state))
    } else {
        match state {
            ElementState::Released => normal_mouse_report(3 + bits, line, column, mode.utf8_mouse),
            ElementState::Pressed => normal_mouse_report(
                button + bits,
                line,
                column,
                mode.utf8_mouse,
            ),
        }
    }
}

/// The number that a button is reported by; the others cannot be reported.
pub fn button_code(button: &MouseButton) -> (r: Option<u8>)
    ensures
        r == button.code(),
{
    match button {
        MouseButton::Left => Some(0),
        MouseButton::Middle => Some(1),
        MouseButton::Right => Some(2),
        MouseButton::Other(_) => None,
    }
}

/// The report of a change of focus: `ESC [ I` or `ESC [ O`.
pub open spec fn focus_bytes(is_focused: bool) -> Seq<u8> {
    seq![
        0x1bu8,
        0x5bu8,
        if is_focused {
            0x49u8
        } else {
            0x4fu8
        },
    ]
}

/// The report of a change of focus.
pub fn focus_report(is_focused: bool) -> (r: Vec<u8>)
    ensures
        r@ == focus_bytes(is_focused),
{
    let c: u8 = if is_focused {
        0x49
    } else {
        0x4f
    };
    let r: Vec<u8> = vec![0x1b, 0x5b, c];
    assert(r@ =~= seq![0x1bu8, 0x5bu8, c]);
    r
}

/// In UTF-8 mode, a position is reported as the UTF-8 encoding of the character 33 places further
/// on.
pub proof fn law_positions_are_utf8(pos: int)
    requires
        0 <= pos < report_limit(true),
    ensures
        position_bytes(pos, true) == vstd::utf8::encode_scalar((33 + pos) as u32),
{
    let code = (33 + pos) as u32;
    if pos >= 95 {
        assert((0xC0u8 | (((code >> 6) & 0x1F) as u8)) == 0xc0 + code / 64 && (0x80u8 | ((code
            & 0x3F) as u8)) == 0x80 + code % 64) by (bit_vector)
            requires
                128 <= code < 2048,
        ;
    } else {
        assert((code & 0x7F) as u8 == code) by (bit_vector)
            requires
                code < 128,
        ;
    }
    assert(position_bytes(pos, true) =~= vstd::utf8::encode_scalar(code));
}

/// Every plain report takes four bytes and one or two for each position.
pub proof fn law_normal_report_length(button: int, line: int, column: int, utf8: bool)
    requires
        0 <= line < report_limit(utf8),
        0 <= column < report_limit(utf8),
    ensures
        normal_report(button, line, column, utf8) is Some,
        6 <= normal_report(button, line, column, utf8)->0.len() <= 8,
        !utf8 ==> normal_report(button, line, column, utf8)->0.len() == 6,
{
}

/// The plain report tells every position within its reach apart from the others.
pub proof fn law_positions_are_told_apart(a: int, b: int, utf8: bool)
    requires
        0 <= a < report_limit(utf8),
        0 <= b < report_limit(utf8),
        position_bytes(a, utf8) == position_bytes(b, utf8),
    ensures
        a == b,
{
    let (x, y) = (position_bytes(a, utf8), position_bytes(b, utf8));
    assert(x.len() == y.len());
    assert(x[0] == y[0]);
    if utf8 && a >= 95 {
        assert(x[1] == y[1]);
    }
}

} // verus!
