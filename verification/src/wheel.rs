//! Handle input from the mouse wheel.
use crate::context;
use crate::context::ActionContext;
use crate::effect;
use crate::effect::{Effect, EffectView, Step};
use crate::input::Processor;
use crate::mouse;
use crate::report;
use crate::term::{ElementState, TermMode, TouchPhase};
use vstd::prelude::*;

verus! {

/// The unit in which the wheel was measured.
#[derive(Clone, Copy, PartialEq, Eq, Structural, Debug)]
pub enum WheelDelta {
    Lines,
    Pixels,
}

/// What a turn of the wheel does to the distance that was turned.
#[derive(Clone, Copy, PartialEq, Eq, Structural, Debug)]
pub enum WheelAction {
    /// The distance is added, and the terminal is scrolled by the lines that are full.
    Scroll,
    /// The distance starts again from nothing.
    Reset,
    Ignore,
}

/// Where the lines go that the wheel was turned by.
#[derive(Clone, Copy, PartialEq, Eq, Structural, Debug)]
pub enum ScrollTarget {
    /// The program in the terminal receives the mouse.
    Report,
    /// The program in the terminal receives cursor keys.
    CursorKeys,
    /// The scrollback moves.
    Scrollback,
}

/// Where the lines go that the wheel was turned by.
pub open spec fn target(mode: TermMode, shift: bool) -> ScrollTarget {
    if mode.reports_mouse() {
        ScrollTarget::Report
    } else if mode.alt_screen && mode.alternate_scroll && !shift {
        ScrollTarget::CursorKeys
    } else {
        ScrollTarget::Scrollback
    }
}

/// The number of lines, without their direction.
pub open spec fn line_count(lines: int) -> nat {
    let count = if lines < 0 {
        -lines
    } else {
        lines
    };
    if count > i32::MAX {
        i32::MAX as nat
    } else {
        count as nat
    }
}

/// The keys that move the cursor by a number of lines.
pub open spec fn cursor_keys(up: bool, count: nat) -> Seq<u8> {
    Seq::new(
        3 * count,
        |i: int|
            if i % 3 == 0 {
                0x1bu8
            } else if i % 3 == 1 {
                0x4fu8
            } else if up {
                0x41u8
            } else {
                0x42u8
            },
    )
}

/// The report of a turn by one line, as often as lines were turned.
pub open spec fn wheel_reports(
    ctx: ActionContext,
    mode: TermMode,
    up: bool,
    count: nat,
) -> Seq<EffectView>
    decreases count,
{
    if count == 0 {
        Seq::empty()
    } else {
        wheel_reports(ctx, mode, up, (count - 1) as nat) + mouse::reported(
            ctx,
            mode,
            if up {
                64
            } else {
                65
            },
            ElementState::Pressed,
        )
    }
}

/// What a turn by a number of lines sets off.
pub open spec fn scroll_effects(
    ctx: ActionContext,
    mode: TermMode,
    up: bool,
    lines: isize,
) -> Seq<EffectView> {
    match target(mode, ctx.modifiers.shift) {
        ScrollTarget::Report => wheel_reports(ctx, mode, up, line_count(lines as int)),
        ScrollTarget::CursorKeys => seq![
            EffectView::WriteToPty(cursor_keys(up, line_count(lines as int))),
        ],
        ScrollTarget::Scrollback => seq![effect::act(Step::ScrollBackBy(lines))],
    }
}

fn count_lines(lines: isize) -> (r: usize)
    ensures
        r == line_count(lines as int),
{
    let limit: isize = 0x7fff_ffff;
    if lines > limit {
        limit as usize
    } else if lines >= 0 {
        lines as usize
    } else if lines < -limit {
        limit as usize
    } else {
        (-lines) as usize
    }
}

impl Processor {
    /// What a turn of the wheel does.
    pub fn mouse_wheel_input(&self, delta: WheelDelta, phase: TouchPhase) -> (r: WheelAction)
        ensures
            r == if delta is Lines || phase is Moved {
                WheelAction::Scroll
            } else if phase is Started {
                WheelAction::Reset
            } else {
                WheelAction::Ignore
            },
    {
        match delta {
            WheelDelta::Lines => WheelAction::Scroll,
            WheelDelta::Pixels => match phase {
                // Reset offset to zero.
                TouchPhase::Started => WheelAction::Reset,
                TouchPhase::Moved => WheelAction::Scroll,
                _ => WheelAction::Ignore,
            },
        }
    }

    /// Where the lines go that the wheel was turned by.
    pub fn scroll_target(&self, mode: &TermMode) -> (r: ScrollTarget)
        ensures
            r == target(*mode, self.ctx.modifiers.shift),
    {
        if context::mouse_mode(mode) {
            ScrollTarget::Report
        } else if mode.alt_screen && mode.alternate_scroll && !self.ctx.modifiers.shift {
            ScrollTarget::CursorKeys
        } else {
            ScrollTarget::Scrollback
        }
    }

    /// The wheel was turned up or down, and by that reached a number of full lines.
    pub fn scroll_terminal(&self, up: bool, lines: isize, mode: &TermMode) -> (r: Vec<Effect>)
        requires
            mouse::can_report(self.ctx.mouse, *mode),
        ensures
            effect::values(r) == scroll_effects(self.ctx, *mode, up, lines),
    {
        let mut fx = effect::none();
        match self.scroll_target(mode) {
            ScrollTarget::Report => {
                let code: u8 = if up {
                    64
                } else {
                    65
                };
                let count: usize = count_lines(lines);
                let mut i: usize = 0;
                while i < count
                    invariant
                        i <= count,
                        code == if up {
                            64u8
                        } else {
                            65u8
                        },
                        mouse::can_report(self.ctx.mouse, *mode),
                        effect::values(fx) == wheel_reports(self.ctx, *mode, up, i as nat),
                    decreases count - i,
                {
                    effect::extend(&mut fx, self.mouse_report(code, ElementState::Pressed, mode));
                    i = i + 1;
                }
            },
            ScrollTarget::CursorKeys => {
                let cmd: u8 = if up {
                    0x41
                } else {
                    0x42
                };
                let count: usize = count_lines(lines);
                let mut content: Vec<u8> = Vec::new();
                let mut i: usize = 0;
                while i < count
                    invariant
                        i <= count,
                        cmd == if up {
                            0x41u8
                        } else {
                            0x42u8
                        },
                        content@ =~= cursor_keys(up, i as nat),
                    decreases count - i,
                {
                    content.push(0x1b);
                    content.push(0x4f);
                    content.push(cmd);
                    i = i + 1;
                }
                effect::emit(&mut fx, Effect::WriteToPty(content));
            },
            ScrollTarget::Scrollback => {
                effect::step(&mut fx, Step::ScrollBackBy(lines));
            },
        }
        fx
    }

    /// The window received or lost the focus.
    pub fn on_focus_change(&self, is_focused: bool, mode: &TermMode) -> (r: Vec<Effect>)
        ensures
            effect::values(r) == focus_effects(is_focused, *mode),
    {
        let mut fx = effect::none();
        if mode.focus_in_out {
            effect::emit(&mut fx, Effect::WriteToPty(report::focus_report(is_focused)));
        }
        fx
    }
}

/// A change of focus is reported to a program that asked for it.
pub open spec fn focus_effects(is_focused: bool, mode: TermMode) -> Seq<EffectView> {
    if mode.focus_in_out {
        seq![EffectView::WriteToPty(report::focus_bytes(is_focused))]
    } else {
        Seq::empty()
    }
}

/// Turning by some lines and then by some more, in the same direction, moves the cursor by their
/// sum.
pub proof fn law_cursor_keys_add_up(up: bool, a: nat, b: nat)
    ensures
        cursor_keys(up, a) + cursor_keys(up, b) == cursor_keys(up, a + b),
{
    assert(cursor_keys(up, a) + cursor_keys(up, b) =~= cursor_keys(up, a + b));
}

} // verus!
