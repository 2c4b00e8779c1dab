//! Handle input from the window system.
//!
//! Certain key combinations should send some escape sequence back to the PTY. In order to figure
//! that out, state about which modifier keys are pressed needs to be tracked. Additionally, we
//! need a bit of a state machine to determine what to do when a non-modifier key is pressed.
use crate::context;
use crate::context::{ActionContext, Mouse};
use crate::effect;
use crate::effect::{BindingKind, Effect, EffectView, Step};
use crate::index::Point;
use crate::keys;
use crate::mouse;
use crate::mouse::MouseState;
use crate::term::{
    ClipboardType, CursorIcon, ElementState, HostView, ModifiersState, MouseButton, TermMode,
    TermView,
};
use crate::text;
use crate::word;
use crate::word::{RenderableCell, Url};
use vstd::prelude::*;

verus! {

/// Processes input from the window system.
///
/// An escape sequence may be emitted in case specific keys or key combinations are activated.
#[derive(Debug)]
pub struct Processor {
    pub ctx: ActionContext,
    pub highlighted_url: Option<Url>,
}

/// The mouse with a button in another state.
pub open spec fn with_button(mouse: Mouse, button: MouseButton, state: ElementState) -> Mouse {
    match button {
        MouseButton::Left => Mouse { left_button_state: state, ..mouse },
        MouseButton::Middle => Mouse { middle_button_state: state, ..mouse },
        MouseButton::Right => Mouse { right_button_state: state, ..mouse },
        MouseButton::Other(_) => mouse,
    }
}

/// The tab that a button was pressed on, in the first line.
pub open spec fn clicked_tab(mouse: Mouse, state: ElementState, host: HostView) -> Option<usize> {
    if mouse.line.0 == 0 && state is Pressed {
        context::tab_at(mouse.column.0 as int, host.tab_len as int)
    } else {
        None
    }
}

/// A button was pressed on the button that closes a message.
pub open spec fn on_close_button(
    mouse: Mouse,
    state: ElementState,
    searching: bool,
    host: HostView,
) -> bool {
    mouse::bar_state(mouse, searching, host) == Some(MouseState::MessageBarButton)
        && state is Pressed
}

/// The bindings that a button of the mouse runs in the state as it is.
pub open spec fn run_by_button(ctx: ActionContext, button: MouseButton, mode: TermMode) -> Seq<
    usize,
> {
    keys::bindings_of_button(
        ctx.config.mouse_bindings@,
        mode,
        ctx.searching(),
        ctx.modifiers,
        button,
    )
}

/// What a button of the mouse sets off over the grid.
pub open spec fn grid_click(
    ctx: ActionContext,
    button: MouseButton,
    state: ElementState,
    mode: TermMode,
) -> Seq<EffectView> {
    let mods = ctx.modifiers;
    (if state is Pressed {
        keys::binding_steps(BindingKind::Mouse, run_by_button(ctx, button, mode)).push(
            effect::act(Step::MousePress(button)),
        )
    } else {
        seq![effect::act(Step::MouseRelease(button))]
    }) + (if button is Left && mods.logo {
        seq![effect::act(Step::FindWord(state))]
    } else {
        Seq::empty()
    }) + (if button is Left && mods.alt && state is Released {
        seq![effect::act(Step::CopySelection(ClipboardType::Selection))]
            + context::selection_clear()
    } else {
        Seq::empty()
    })
}

/// What a button of the mouse sets off.
pub open spec fn click_effects(
    ctx: ActionContext,
    button: MouseButton,
    state: ElementState,
    mode: TermMode,
    host: HostView,
) -> Seq<EffectView> {
    let tab = clicked_tab(ctx.mouse, state, host);
    if tab is Some {
        seq![effect::act(Step::SelectTab(tab->0))]
    } else if on_close_button(ctx.mouse, state, ctx.searching(), host) {
        context::selection_clear().push(effect::act(Step::PopMessage)).push(
            effect::act(Step::MessagePopped(host.message_lines->0)),
        )
    } else {
        grid_click(ctx, button, state, mode)
    }
}

/// The state after a button of the mouse.
pub open spec fn context_after_click(
    ctx: ActionContext,
    button: MouseButton,
    state: ElementState,
    host: HostView,
) -> ActionContext {
    ActionContext {
        mouse: with_button(ctx.mouse, button, state),
        display_update_pending: ctx.display_update_pending || (clicked_tab(
            ctx.mouse,
            state,
            host,
        ) is None && on_close_button(ctx.mouse, state, ctx.searching(), host)),
        ..ctx
    }
}

/// The numbers that a button of the mouse is compared with fit into a machine word.
pub open spec fn click_fits(ctx: ActionContext, state: ElementState, host: HostView) -> bool {
    &&& host.tab_len * context::TAB_WIDTH <= usize::MAX
    &&& clicked_tab(ctx.mouse, state, host) is None ==> mouse::bars_fit(
        ctx.mouse,
        ctx.searching(),
        host,
    )
}

/// The cursor over the message bar, once a message of `current` lines has made way for one of
/// `new`: it is reset when the height changed or all messages are gone.
pub open spec fn icon_after_message(current: usize, new: usize, mode: TermMode) -> CursorIcon {
    if current < new {
        CursorIcon::Default
    } else if current == new {
        CursorIcon::Hand
    } else if mode.reports_mouse() {
        CursorIcon::Default
    } else {
        CursorIcon::Text
    }
}

fn set_button(mouse: &Mouse, button: MouseButton, state: ElementState) -> (r: Mouse)
    ensures
        r == with_button(*mouse, button, state),
{
    match button {
        MouseButton::Left => Mouse { left_button_state: state, ..*mouse },
        MouseButton::Middle => Mouse { middle_button_state: state, ..*mouse },
        MouseButton::Right => Mouse { right_button_state: state, ..*mouse },
        MouseButton::Other(_) => *mouse,
    }
}

impl Processor {
    pub fn new(ctx: ActionContext, highlighted_url: Option<Url>) -> (r: Processor)
        ensures
            r == (Processor { ctx, highlighted_url }),
    {
        Processor { ctx, highlighted_url }
    }

    /// A button of the mouse was pressed or released.
    pub fn mouse_input(
        &mut self,
        state: ElementState,
        button: MouseButton,
        mode: &TermMode,
        host: &HostView,
    ) -> (r: Vec<Effect>)
        requires
            click_fits(old(self).ctx, state, *host),
        ensures
            *final(self) == (Processor {
                ctx: context_after_click(old(self).ctx, button, state, *host),
                ..*old(self)
            }),
            effect::values(r) == click_effects(old(self).ctx, button, state, *mode, *host),
    {
        self.ctx.mouse = set_button(&self.ctx.mouse, button, state);
        let pressed = state == ElementState::Pressed;
        let mut fx = effect::none();
        // Skip normal mouse events if a tab has been clicked.
        if self.ctx.mouse.line.0 == 0 && pressed {
            if let Some(tab_idx) = context::find_tab(self.ctx.mouse.column, host.tab_len) {
                effect::step(&mut fx, Step::SelectTab(tab_idx));
                return fx;
            }
        }
        // Skip normal mouse events if the message bar has been clicked.
        let bar = mouse::message_or_tab_bar_mouse_state(
            &self.ctx.mouse,
            self.ctx.search_active(),
            host,
        );
        let on_button = match bar {
            Some(MouseState::MessageBarButton) => true,
            _ => false,
        };
        if on_button && pressed {
            let current_lines: usize = match host.message_lines {
                Some(lines) => lines,
                None => 0,
            };
            fx = context::clear_selection();
            effect::extend(&mut fx, self.ctx.pop_message(host.message_lines.is_none()));
            effect::step(&mut fx, Step::MessagePopped(current_lines));
            assert(effect::values(fx) =~= click_effects(old(self).ctx, button, state, *mode, *host));
            fx
        } else {
            self.grid_click(button, state, mode)
        }
    }

    fn grid_click(&self, button: MouseButton, state: ElementState, mode: &TermMode) -> (r: Vec<
        Effect,
    >)
        ensures
            effect::values(r) == grid_click(self.ctx, button, state, *mode),
    {
        let mods = &self.ctx.modifiers;
        let mut fx = effect::none();
        match state {
            ElementState::Pressed => {
                let run = self.process_mouse_bindings(button, mode);
                keys::run_bindings(&mut fx, BindingKind::Mouse, &run);
                effect::step(&mut fx, Step::MousePress(button));
            },
            ElementState::Released => {
                effect::step(&mut fx, Step::MouseRelease(button));
            },
        }
        let left = match button {
            MouseButton::Left => true,
            _ => false,
        };
        if left && mods.logo {
            effect::step(&mut fx, Step::FindWord(state));
        }
        if left && mods.alt && state == ElementState::Released {
            effect::step(&mut fx, Step::CopySelection(ClipboardType::Selection));
            effect::extend(&mut fx, context::clear_selection());
        }
        assert(effect::values(fx) =~= grid_click(self.ctx, button, state, *mode));
        fx
    }

    /// The cursor, once a click has taken a message away.
    pub fn message_popped(current_lines: usize, new_lines: Option<usize>, mode: &TermMode) -> (r:
        Vec<Effect>)
        ensures
            effect::values(r) == seq![
                effect::act(
                    Step::SetMouseCursor(
                        icon_after_message(
                            current_lines,
                            if new_lines is Some {
                                new_lines->0
                            } else {
                                0
                            },
                            *mode,
                        ),
                    ),
                ),
            ],
    {
        let new_lines: usize = match new_lines {
            Some(lines) => lines,
            None => 0,
        };
        // Reset cursor when message bar height changed or all messages are gone.
        let icon = if current_lines < new_lines {
            CursorIcon::Default
        } else if current_lines == new_lines {
            CursorIcon::Hand
        } else if context::mouse_mode(mode) {
            CursorIcon::Default
        } else {
            CursorIcon::Text
        };
        let mut fx = effect::none();
        effect::step(&mut fx, Step::SetMouseCursor(icon));
        fx
    }

    /// The word at the mouse is typed when the button is pressed; the tab bar has no words.
    pub fn word_click(state: ElementState, cells: &Vec<RenderableCell>, point: Point) -> (r: Vec<
        Effect,
    >)
        requires
            forall|i: int|
                0 <= i < cells@.len() ==> (#[trigger] cells@[i]).column.0 < usize::MAX,
        ensures
            state is Released || point.line.0 == 0 ==> effect::values(r) == Seq::<
                EffectView,
            >::empty(),
            state is Pressed && point.line.0 >= 1 ==> exists|word: Seq<char>| #[trigger]
                word::is_word_at(cells@, word::below_tab_bar(point), word) && effect::values(r) == seq![
                    EffectView::WriteToPty(vstd::utf8::encode_utf8(word)),
                ],
    {
        let mut fx = effect::none();
        if state == ElementState::Pressed && point.line.0 >= 1 {
            let word = word::find_word(cells, point);
            effect::emit(&mut fx, Effect::WriteToPty(text::bytes_of(word.as_str())));
            assert(word::is_word_at(cells@, word::below_tab_bar(point), word@));
        }
        fx
    }

    /// Modifier state change.
    pub fn modifiers_input(
        &mut self,
        modifiers: ModifiersState,
        term: &TermView,
        host: &HostView,
        url: Option<Url>,
    ) -> (r: Vec<Effect>)
        requires
            mouse::bars_fit(old(self).ctx.mouse, old(self).ctx.searching(), *host),
        ensures
            *final(self) == (Processor {
                ctx: ActionContext { modifiers, ..old(self).ctx },
                ..*old(self)
            }),
            effect::values(r) == mouse::pointer_effects(
                old(self).highlighted_url,
                mouse::state_of(final(self).ctx, *term, *host, url),
            ),
    {
        self.ctx.modifiers = modifiers;
        // Update mouse state and check for URL change.
        let mouse_state = self.mouse_state(term, host, url);
        self.show_pointer(mouse_state)
    }

    /// Reset mouse cursor based on modifier and terminal state.
    pub fn reset_mouse_cursor(&self, term: &TermView, host: &HostView, url: Option<Url>) -> (r: Vec<
        Effect,
    >)
        requires
            mouse::bars_fit(self.ctx.mouse, self.ctx.searching(), *host),
        ensures
            effect::values(r) == seq![
                effect::act(
                    Step::SetMouseCursor(mouse::state_of(self.ctx, *term, *host, url).icon()),
                ),
            ],
    {
        let mouse_state = self.mouse_state(term, host, url);
        let mut fx = effect::none();
        effect::step(&mut fx, Step::SetMouseCursor(CursorIcon::from(mouse_state)));
        fx
    }
}

} // verus!
