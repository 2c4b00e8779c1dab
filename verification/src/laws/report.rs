//! Laws of what a program is told of the mouse, the wheel and the focus.
use crate::context::{ActionContext, Mouse};
use crate::effect::{EffectView, Step};
use crate::index::Point;
use crate::laws;
use crate::mouse::MouseState;
use crate::term::{ElementState, ModifiersState, MouseButton, TermMode, TermView};
use crate::wheel::ScrollTarget;
use vstd::prelude::*;

verus! {

/// What the held keys add to the number of a button: 4 for Shift, 8 for Alt and 16 for Ctrl.
pub open spec fn held_keys(mods: ModifiersState) -> int {
    let shift: int = if mods.shift {
        4
    } else {
        0
    };
    let alt: int = if mods.alt {
        8
    } else {
        0
    };
    let ctrl: int = if mods.ctrl {
        16
    } else {
        0
    };
    shift + alt + ctrl
}

/// The position of the pointer can be reported: the plain report ends at 223 lines and columns, or
/// at 2015 where positions are written as UTF-8.
pub open spec fn within_reach(mouse: Mouse, mode: TermMode) -> bool {
    let end: int = if mode.utf8_mouse {
        2015
    } else {
        223
    };
    mode.sgr_mouse || (mouse.line.0 < end && mouse.column.0 < end)
}

/// The bytes hold a number in decimal, from the given place up to a semicolon.
pub open spec fn number_at(bytes: Seq<u8>, at: int, number: nat) -> bool {
    let shown = crate::text::decimal_bytes(number);
    &&& at + shown.len() < bytes.len()
    &&& bytes.subrange(at, at + shown.len()) == shown
    &&& bytes[at + shown.len()] == 0x3b
}

/// The bytes report a button by the number given, in the form that the mode asks for.
pub open spec fn tells_button(bytes: Seq<u8>, number: int, mode: TermMode) -> bool {
    if mode.sgr_mouse {
        bytes.take(3) == seq![0x1bu8, 0x5bu8, 0x3cu8] && number_at(bytes, 3, number as nat)
    } else {
        bytes.len() >= 6 && bytes.take(3) == seq![0x1bu8, 0x5bu8, 0x4du8] && bytes[3] == 32 + number
    }
}

/// The bytes are the report of a button at the place of the pointer, with the keys that are held.
pub open spec fn is_report(
    bytes: Seq<u8>,
    ctx: ActionContext,
    mode: TermMode,
    button: int,
    state: ElementState,
) -> bool {
    Some(bytes) == crate::report::button_report(
        button,
        state,
        ctx.modifiers,
        ctx.mouse.line.0 as int,
        ctx.mouse.column.0 as int,
        mode,
    )
}

/// The number that decimal digits stand for.
pub open spec fn number_of(shown: Seq<u8>) -> int
    decreases shown.len(),
{
    if shown.len() == 0 {
        0
    } else {
        10 * number_of(shown.drop_last()) + (shown.last() - 48)
    }
}

/// A number in decimal is made of digits, reads back as the number, and has no digit too many.
pub proof fn law_decimal_reads_back(n: nat)
    ensures
        ({
            let shown = crate::text::decimal_bytes(n);
            &&& number_of(shown) == n
            &&& shown.len() > 0
            &&& shown.len() > 1 ==> shown[0] != 48
            &&& forall|i: int| 0 <= i < shown.len() ==> 48 <= #[trigger] shown[i] <= 57
            &&& crate::text::decimal(n).len() == shown.len()
            &&& forall|i: int|
                0 <= i < shown.len() ==> (#[trigger] crate::text::decimal(n)[i]) as int == shown[i]
        }),
    decreases n,
{
    let shown = crate::text::decimal_bytes(n);
    if n < 10 {
        assert(shown.drop_last() =~= Seq::empty());
        assert(number_of(shown.drop_last()) == 0);
        assert(shown == seq![(48 + n) as u8]);
        assert(crate::text::decimal(n)[0] == (48 + n) as char);
    } else {
        law_decimal_reads_back(n / 10);
        assert(shown.drop_last() =~= crate::text::decimal_bytes(n / 10));
        assert(crate::text::decimal(n).drop_last() =~= crate::text::decimal(n / 10));
        assert forall|i: int| 0 <= i < shown.len() implies (48 <= #[trigger] shown[i] <= 57) && (
        crate::text::decimal(n)[i]) as int == shown[i] by {
            if i < shown.len() - 1 {
                assert(shown[i] == crate::text::decimal_bytes(n / 10)[i]);
                assert(crate::text::decimal(n)[i] == crate::text::decimal(n / 10)[i]);
            }
        }
        assert(shown[0] == crate::text::decimal_bytes(n / 10)[0]);
        if n / 10 < 10 {
            assert(crate::text::digits(n / 10) == seq![(n / 10) as u8]);
        } else {
            law_decimal_reads_back((n / 10) / 10);
            assert(crate::text::digits(n / 10).len() > 1);
        }
    }
}

proof fn lemma_two_digits(n: nat)
    requires
        10 <= n < 100,
    ensures
        crate::text::decimal_bytes(n) == seq![(48 + n / 10) as u8, (48 + n % 10) as u8],
{
    assert(crate::text::digits(n / 10) =~= seq![(n / 10) as u8]);
    assert(crate::text::digits(n) =~= seq![(n / 10) as u8, (n % 10) as u8]);
}

proof fn lemma_told_apart(a: Seq<u8>, b: Seq<u8>, number: int, mode: TermMode)
    requires
        64 <= number < 98,
        tells_button(a, number, mode),
        tells_button(b, number + 1, mode),
    ensures
        a != b,
{
    if mode.sgr_mouse {
        lemma_two_digits(number as nat);
        lemma_two_digits((number + 1) as nat);
        assert(a[4] == a.subrange(3, 5)[1]);
        assert(b[4] == b.subrange(3, 5)[1]);
    }
}

proof fn lemma_report(ctx: ActionContext, mode: TermMode, button: int, state: ElementState)
    requires
        0 <= button <= 65,
    ensures
        ({
            let effects = crate::mouse::reported(ctx, mode, button, state);
            let number = if state is Released && !mode.sgr_mouse {
                3
            } else {
                button
            };
            &&& !within_reach(ctx.mouse, mode) ==> effects.len() == 0
            &&& within_reach(ctx.mouse, mode) ==> {
                &&& effects.len() == 1
                &&& effects[0] is WriteToPty
                &&& tells_button(
                    effects[0]->WriteToPty_0,
                    number + held_keys(ctx.modifiers),
                    mode,
                )
                &&& is_report(effects[0]->WriteToPty_0, ctx, mode, button, state)
            }
        }),
{
    if within_reach(ctx.mouse, mode) {
        let number = if state is Released && !mode.sgr_mouse {
            3
        } else {
            button
        } + held_keys(ctx.modifiers);
        let bytes = crate::mouse::reported(ctx, mode, button, state)[0]->WriteToPty_0;
        if mode.sgr_mouse {
            let shown = crate::text::decimal_bytes(number as nat);
            assert(bytes.take(3) =~= seq![0x1bu8, 0x5bu8, 0x3cu8]);
            assert(bytes.subrange(3, 3 + shown.len() as int) =~= shown);
        } else {
            assert(bytes.take(3) =~= seq![0x1bu8, 0x5bu8, 0x4du8]);
        }
    }
}

proof fn lemma_wheel_reports(ctx: ActionContext, mode: TermMode, up: bool, count: nat)
    ensures
        ({
            let effects = crate::wheel::wheel_reports(ctx, mode, up, count);
            let number: int = if up {
                64
            } else {
                65
            };
            &&& !within_reach(ctx.mouse, mode) ==> effects.len() == 0
            &&& within_reach(ctx.mouse, mode) ==> {
                &&& effects.len() == count
                &&& forall|i: int|
                    0 <= i < count ==> (#[trigger] effects[i]) is WriteToPty && tells_button(
                        effects[i]->WriteToPty_0,
                        number + held_keys(ctx.modifiers),
                        mode,
                    ) && is_report(
                        effects[i]->WriteToPty_0,
                        ctx,
                        mode,
                        number,
                        ElementState::Pressed,
                    )
            }
        }),
    decreases count,
{
    if count > 0 {
        lemma_wheel_reports(ctx, mode, up, (count - 1) as nat);
        lemma_report(
            ctx,
            mode,
            if up {
                64
            } else {
                65
            },
            ElementState::Pressed,
        );
    }
}

/// The number of lines of a turn, whichever way it goes, as far as 32 bits can count.
pub open spec fn distance(lines: isize) -> int {
    let turned = if lines < 0 {
        -(lines as int)
    } else {
        lines as int
    };
    if turned < 0x8000_0000 {
        turned
    } else {
        0x7fff_ffff
    }
}

/// Where a program gets the mouse, a turn of the wheel is reported once for each line: as button 64
/// upwards and as button 65 downwards. So the two directions are told apart at every position
/// within reach.
pub proof fn law_wheel_is_reported_by_direction(ctx: ActionContext, mode: TermMode, lines: isize)
    requires
        mode.mouse_mode && !mode.vi,
        within_reach(ctx.mouse, mode),
    ensures
        ({
            let up = crate::wheel::scroll_effects(ctx, mode, true, lines);
            let down = crate::wheel::scroll_effects(ctx, mode, false, lines);
            &&& up.len() == distance(lines)
            &&& down.len() == distance(lines)
            &&& forall|i: int|
                0 <= i < up.len() ==> (#[trigger] up[i]) is WriteToPty && tells_button(
                    up[i]->WriteToPty_0,
                    64 + held_keys(ctx.modifiers),
                    mode,
                ) && is_report(up[i]->WriteToPty_0, ctx, mode, 64, ElementState::Pressed)
            &&& forall|i: int|
                0 <= i < down.len() ==> (#[trigger] down[i]) is WriteToPty && tells_button(
                    down[i]->WriteToPty_0,
                    65 + held_keys(ctx.modifiers),
                    mode,
                ) && is_report(down[i]->WriteToPty_0, ctx, mode, 65, ElementState::Pressed)
            &&& forall|i: int, j: int|
                0 <= i < up.len() && 0 <= j < down.len() ==> #[trigger] up[i] != #[trigger] down[j]
        }),
{
    let up = crate::wheel::scroll_effects(ctx, mode, true, lines);
    let down = crate::wheel::scroll_effects(ctx, mode, false, lines);
    lemma_wheel_reports(ctx, mode, true, distance(lines) as nat);
    lemma_wheel_reports(ctx, mode, false, distance(lines) as nat);
    assert forall|i: int, j: int| 0 <= i < up.len() && 0 <= j < down.len() implies #[trigger] up[i]
        != #[trigger] down[j] by {
        lemma_told_apart(
            up[i]->WriteToPty_0,
            down[j]->WriteToPty_0,
            64 + held_keys(ctx.modifiers),
            mode,
        );
    }
}

/// A position out of reach is not reported, whatever the wheel does.
pub proof fn law_wheel_out_of_reach(ctx: ActionContext, mode: TermMode, up: bool, lines: isize)
    requires
        mode.mouse_mode && !mode.vi,
        !within_reach(ctx.mouse, mode),
    ensures
        crate::wheel::scroll_effects(ctx, mode, up, lines).len() == 0,
{
    lemma_wheel_reports(ctx, mode, up, crate::wheel::line_count(lines as int));
}

/// Where no program gets the mouse, the wheel presses a cursor key for each line in a full screen
/// program that wants this, unless Shift is held; everywhere else it scrolls back by the lines that
/// it turned.
pub proof fn law_wheel_without_reports(ctx: ActionContext, mode: TermMode, up: bool, lines: isize)
    requires
        !mode.mouse_mode || mode.vi,
    ensures
        ({
            let effects = crate::wheel::scroll_effects(ctx, mode, up, lines);
            let keys = mode.alt_screen && mode.alternate_scroll && !ctx.modifiers.shift;
            &&& effects.len() == 1
            &&& !keys ==> effects[0] == EffectView::Do(Step::ScrollBackBy(lines))
            &&& keys ==> effects[0] is WriteToPty && effects[0]->WriteToPty_0.len() == 3 * distance(
                lines,
            )
            &&& keys ==> forall|i: int|
                0 <= i < distance(lines) ==> #[trigger] effects[0]->WriteToPty_0.subrange(
                    3 * i,
                    3 * i + 3,
                ) == seq![
                    0x1bu8,
                    0x4fu8,
                    if up {
                        0x41u8
                    } else {
                        0x42u8
                    },
                ]
        }),
{
    let effects = crate::wheel::scroll_effects(ctx, mode, up, lines);
    if mode.alt_screen && mode.alternate_scroll && !ctx.modifiers.shift {
        let bytes = effects[0]->WriteToPty_0;
        assert forall|i: int| 0 <= i < distance(lines) implies #[trigger] bytes.subrange(
            3 * i,
            3 * i + 3,
        ) == seq![
            0x1bu8,
            0x4fu8,
            if up {
                0x41u8
            } else {
                0x42u8
            },
        ] by {
            assert((3 * i) % 3 == 0 && (3 * i + 1) % 3 == 1 && (3 * i + 2) % 3 == 2);
            assert(bytes.subrange(3 * i, 3 * i + 3) =~= seq![
                bytes[3 * i],
                bytes[3 * i + 1],
                bytes[3 * i + 2],
            ]);
        }
    }
}

/// A press that a program gets is reported once, within reach: the left button as 0, the middle as
/// 1 and the right as 2, with what the held keys add. A further button is not reported.
pub proof fn law_presses_are_reported(
    ctx: ActionContext,
    button: MouseButton,
    point: Point,
    term: TermView,
)
    requires
        term.mode.mouse_mode && !term.mode.vi && !ctx.modifiers.shift,
    ensures
        ({
            let effects = crate::mouse::press_effects(ctx, button, point, term);
            let number: int = match button {
                MouseButton::Left => 0,
                MouseButton::Middle => 1,
                _ => 2,
            };
            &&& button is Other || !within_reach(ctx.mouse, term.mode) ==> effects.len() == 0
            &&& !(button is Other) && within_reach(ctx.mouse, term.mode) ==> effects.len() == 1
                && effects[0] is WriteToPty && tells_button(
                effects[0]->WriteToPty_0,
                number + held_keys(ctx.modifiers),
                term.mode,
            ) && is_report(
                effects[0]->WriteToPty_0,
                ctx,
                term.mode,
                number,
                ElementState::Pressed,
            )
        }),
{
    let number: int = match button {
        MouseButton::Left => 0,
        MouseButton::Middle => 1,
        _ => 2,
    };
    lemma_report(ctx, term.mode, number, ElementState::Pressed);
}

/// A release that a program gets is reported once, within reach: as the same button in the form
/// that can say so, and as button 3 in the plain form, which has one number for all releases.
pub proof fn law_releases_are_reported(
    ctx: ActionContext,
    button: MouseButton,
    term: TermView,
    state: MouseState,
)
    requires
        term.mode.mouse_mode && !term.mode.vi && !ctx.modifiers.shift,
    ensures
        ({
            let effects = crate::mouse::release_effects(ctx, button, term, state);
            let code: int = match button {
                MouseButton::Left => 0,
                MouseButton::Middle => 1,
                _ => 2,
            };
            let number = if term.mode.sgr_mouse {
                code
            } else {
                3
            };
            &&& button is Other || !within_reach(ctx.mouse, term.mode) ==> effects.len() == 0
            &&& !(button is Other) && within_reach(ctx.mouse, term.mode) ==> effects.len() == 1
                && effects[0] is WriteToPty && tells_button(
                effects[0]->WriteToPty_0,
                number + held_keys(ctx.modifiers),
                term.mode,
            ) && is_report(
                effects[0]->WriteToPty_0,
                ctx,
                term.mode,
                code,
                ElementState::Released,
            )
        }),
{
    let number: int = match button {
        MouseButton::Left => 0,
        MouseButton::Middle => 1,
        _ => 2,
    };
    lemma_report(ctx, term.mode, number, ElementState::Released);
}

/// In the form that numbers are written out in, the button is followed by the column and the line,
/// both counted from 1, and the last byte tells a press from a release.
pub proof fn law_written_out_report(
    button: nat,
    state: ElementState,
    mods: ModifiersState,
    line: nat,
    column: nat,
    mode: TermMode,
)
    requires
        mode.sgr_mouse,
    ensures
        ({
            let bytes = crate::report::button_report(
                button as int,
                state,
                mods,
                line as int,
                column as int,
                mode,
            )->0;
            let first = crate::text::decimal_bytes((button + held_keys(mods)) as nat).len();
            let second = crate::text::decimal_bytes((column + 1) as nat).len();
            let shown = crate::text::decimal_bytes((line + 1) as nat);
            &&& number_at(bytes, 3, (button + held_keys(mods)) as nat)
            &&& number_at(bytes, (4 + first) as int, (column + 1) as nat)
            &&& bytes.skip((5 + first + second) as int).drop_last() == shown
            &&& bytes.last() == if state is Pressed {
                0x4du8
            } else {
                0x6du8
            }
        }),
{
    let bytes = crate::report::button_report(
        button as int,
        state,
        mods,
        line as int,
        column as int,
        mode,
    )->0;
    let first = crate::text::decimal_bytes((button + held_keys(mods)) as nat);
    let second = crate::text::decimal_bytes((column + 1) as nat);
    let shown = crate::text::decimal_bytes((line + 1) as nat);
    assert(bytes.subrange(3, 3 + first.len() as int) =~= first);
    let behind = 4 + first.len() as int;
    assert(bytes.subrange(behind, behind + second.len()) =~= second);
    assert(bytes.skip((5 + first.len() + second.len()) as int).drop_last() =~= shown);
}

/// The plain report ends with the column and then the line, each as one byte that is 33 more, or as
/// the UTF-8 of that number where the mode asks for it.
pub proof fn law_plain_report(
    button: nat,
    state: ElementState,
    mods: ModifiersState,
    line: nat,
    column: nat,
    mode: TermMode,
)
    requires
        !mode.sgr_mouse,
        !mode.utf8_mouse,
    ensures
        ({
            let report = crate::report::button_report(
                button as int,
                state,
                mods,
                line as int,
                column as int,
                mode,
            );
            &&& report is Some <==> line < 223 && column < 223
            &&& report is Some ==> report->0.len() == 6 && report->0[4] == 33 + column
                && report->0[5] == 33 + line
        }),
{
}

/// Where positions are written as UTF-8 the column comes first as well, and both read as 33 more.
pub proof fn law_wide_plain_report(
    button: nat,
    state: ElementState,
    mods: ModifiersState,
    line: nat,
    column: nat,
    mode: TermMode,
)
    requires
        !mode.sgr_mouse,
        mode.utf8_mouse,
        line < 2015,
        column < 2015,
    ensures
        ({
            let report = crate::report::button_report(
                button as int,
                state,
                mods,
                line as int,
                column as int,
                mode,
            );
            &&& report is Some
            &&& report->0.skip(4) == vstd::utf8::encode_scalar((33 + column) as u32)
                + vstd::utf8::encode_scalar((33 + line) as u32)
        }),
{
    crate::report::law_positions_are_utf8(line as int);
    crate::report::law_positions_are_utf8(column as int);
    let report = crate::report::button_report(
        button as int,
        state,
        mods,
        line as int,
        column as int,
        mode,
    );
    assert(report->0.skip(4) =~= crate::report::position_bytes(column as int, true)
        + crate::report::position_bytes(line as int, true));
}

/// In vi mode no program learns of the mouse: neither a press nor a release, and no turn of the
/// wheel as a report.
pub proof fn law_vi_mode_keeps_the_mouse(
    ctx: ActionContext,
    button: MouseButton,
    point: Point,
    term: TermView,
    state: MouseState,
)
    requires
        term.mode.vi,
    ensures
        laws::writes_nothing(crate::mouse::press_effects(ctx, button, point, term)),
        laws::writes_nothing(crate::mouse::release_effects(ctx, button, term, state)),
        crate::wheel::target(term.mode, ctx.modifiers.shift) != ScrollTarget::Report,
        !term.mode.reports_mouse(),
{
}

/// A motion that does not extend a selection is reported where the mode asks for motions, the cell
/// is another and the pointer is on a line of the screen: as 32 more than the held button, where the
/// left one goes before the middle and the right one, and as 35 with none held, where motions
/// without a button are asked for.
pub proof fn law_motions_are_reported(
    ctx: ActionContext,
    changed: bool,
    point: Point,
    term: TermView,
)
    requires
        term.mode.mouse_mode && !term.mode.vi && !ctx.modifiers.shift,
    ensures
        ({
            let effects = crate::mouse::motion_effects(ctx, changed, point, term);
            let mouse = ctx.mouse;
            let held = mouse.left_button_state is Pressed || mouse.middle_button_state is Pressed
                || mouse.right_button_state is Pressed;
            let number: int = if mouse.left_button_state is Pressed {
                32
            } else if mouse.middle_button_state is Pressed {
                33
            } else if mouse.right_button_state is Pressed {
                34
            } else {
                35
            };
            let told = changed && point.line.0 < term.screen_lines && within_reach(mouse, term.mode)
                && (term.mode.mouse_motion || (term.mode.mouse_drag && held));
            &&& !told ==> effects.len() == 0
            &&& told ==> effects.len() == 1 && effects[0] is WriteToPty && tells_button(
                effects[0]->WriteToPty_0,
                number + held_keys(ctx.modifiers),
                term.mode,
            ) && is_report(
                effects[0]->WriteToPty_0,
                ctx,
                term.mode,
                number,
                ElementState::Pressed,
            )
        }),
{
    let mouse = ctx.mouse;
    let number: int = if mouse.left_button_state is Pressed {
        32
    } else if mouse.middle_button_state is Pressed {
        33
    } else if mouse.right_button_state is Pressed {
        34
    } else {
        35
    };
    lemma_report(ctx, term.mode, number, ElementState::Pressed);
}

/// A program that asked for it is told when the window gets the focus and when it loses it, in two
/// ways that differ; another program is told nothing.
pub proof fn law_focus_is_reported(mode: TermMode)
    ensures
        mode.focus_in_out ==> crate::wheel::focus_effects(true, mode) == seq![
            EffectView::WriteToPty(seq![0x1bu8, 0x5bu8, 0x49u8]),
        ],
        mode.focus_in_out ==> crate::wheel::focus_effects(false, mode) == seq![
            EffectView::WriteToPty(seq![0x1bu8, 0x5bu8, 0x4fu8]),
        ],
        !mode.focus_in_out ==> crate::wheel::focus_effects(true, mode).len() == 0,
        !mode.focus_in_out ==> crate::wheel::focus_effects(false, mode).len() == 0,
        crate::report::focus_bytes(true) != crate::report::focus_bytes(false),
{
    assert(crate::report::focus_bytes(true)[2] != crate::report::focus_bytes(false)[2]);
}

} // verus!
