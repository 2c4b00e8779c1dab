//! Handle the events that were queued.
use crate::config::Config;
use crate::context;
use crate::context::{ActionContext, Mouse};
use crate::effect;
use crate::effect::{Effect, EffectView, Step};
use crate::event::{ConfigChanges, Event, HostEvent, TerminalEvent, WindowEvent};
use crate::index::Direction;
use crate::input;
use crate::input::Processor;
use crate::keys;
use crate::term::{HostView, Platform, Scroll, TermMode, TermView};
use crate::text;
use crate::wheel;
use vstd::prelude::*;

verus! {

/// The bell runs a command, if one is set, and calls attention to a window without the focus.
pub open spec fn bell_effects(config: Config, term: TermView) -> Seq<EffectView> {
    (match config.bell_command {
        Some(command) => seq![EffectView::StartDaemon(command.deep_view())],
        None => Seq::empty(),
    }) + (if term.mode.urgency_hints {
        seq![effect::act(Step::SetUrgent(!term.is_focused))]
    } else {
        Seq::empty()
    })
}

/// What an event of a terminal sets off.
pub open spec fn terminal_effects(event: TerminalEvent, config: Config, term: TermView) -> Seq<
    EffectView,
> {
    match event {
        TerminalEvent::Title(title) => if config.dynamic_title {
            seq![EffectView::SetTitle(title@)]
        } else {
            Seq::empty()
        },
        TerminalEvent::ResetTitle => if config.dynamic_title {
            seq![EffectView::SetTitle(config.title@)]
        } else {
            Seq::empty()
        },
        TerminalEvent::Wakeup => seq![effect::act(Step::MarkDirty)],
        TerminalEvent::Close(_) => seq![effect::act(Step::RemoveSelectedTab)],
        TerminalEvent::Bell => bell_effects(config, term),
        TerminalEvent::ClipboardStore(ty, content) => seq![
            EffectView::StoreClipboard(ty, content@),
        ],
        TerminalEvent::ClipboardLoad(ty, format) => seq![
            effect::act(Step::AnswerClipboard(ty, format)),
        ],
        TerminalEvent::MouseCursorDirty => seq![effect::act(Step::ResetMouseCursor)],
        TerminalEvent::Exit => Seq::empty(),
        TerminalEvent::CursorBlinkingChange(_) => seq![effect::act(Step::UpdateCursorBlinking)],
    }
}

/// What an event of the library or of the host sets off.
pub open spec fn user_effects(
    event: Event,
    processor: Processor,
    term: TermView,
    host: HostView,
) -> Seq<EffectView> {
    match event {
        Event::TestEvent => Seq::empty(),
        Event::DPRChanged(scale_factor, (width, height)) => seq![
            effect::act(Step::SetFont(processor.ctx.font_size)),
            effect::act(Step::SetDimensions(width, height)),
            effect::act(Step::SetScaleFactor(scale_factor)),
            effect::act(Step::MarkDirty),
        ],
        Event::Message(message) => seq![
            effect::act(Step::PushMessage(message)),
            effect::act(Step::MarkDirty),
        ],
        Event::SearchNext => seq![effect::act(Step::GotoMatch(None))],
        Event::ConfigReload(path) => (if host.message_lines is Some {
            seq![effect::act(Step::RemoveConfigMessages)]
        } else {
            Seq::empty()
        }).push(EffectView::ReloadConfig(path@)),
        Event::Scroll(scroll) => seq![effect::act(Step::Scroll(scroll))],
        Event::BlinkCursor => seq![effect::act(Step::MarkDirty)],
        Event::TerminalEvent(event) => terminal_effects(event, processor.ctx.config, term),
    }
}

/// A change of the focus is seen by the terminal and the window, and reported.
pub open spec fn window_focus_effects(is_focused: bool, mode: TermMode) -> Seq<EffectView> {
    seq![
        effect::act(Step::SetFocused(is_focused)),
        effect::act(Step::MarkDirty),
        effect::act(
            if is_focused {
                Step::SetUrgent(false)
            } else {
                Step::SetMouseVisible(true)
            },
        ),
        effect::act(Step::UpdateCursorBlinking),
    ] + wheel::focus_effects(is_focused, mode)
}

/// What an event of a window sets off.
pub open spec fn window_effects(
    event: WindowEvent,
    processor: Processor,
    term: TermView,
    host: HostView,
) -> Seq<EffectView> {
    match event {
        WindowEvent::CloseRequested => seq![effect::act(Step::ExitTerminal)],
        WindowEvent::Resized(width, height) => if host.platform is Windows && width == 0
            && height == 0 {
            Seq::empty()
        } else {
            seq![
                effect::act(Step::SetDimensions(width, height)),
                effect::act(Step::MarkDirty),
            ]
        },
        WindowEvent::KeyboardInput { input, is_synthetic } => if is_synthetic {
            Seq::empty()
        } else {
            keys::key_effects(processor.ctx, input, term.mode, host)
        },
        WindowEvent::ReceivedCharacter(c) => keys::char_effects(
            processor.ctx,
            c,
            term.mode,
            host,
        ),
        WindowEvent::MouseInput { state, button } => (seq![
            effect::act(Step::SetMouseVisible(true)),
        ] + input::click_effects(processor.ctx, button, state, term.mode, host)).push(
            effect::act(Step::MarkDirty),
        ),
        WindowEvent::ModifiersChanged(modifiers) => seq![
            effect::act(Step::ModifiersInput(modifiers)),
        ],
        WindowEvent::CursorMoved { x, y } => seq![
            effect::act(Step::SetMouseVisible(true)),
            effect::act(Step::MouseMoved(x, y)),
        ],
        WindowEvent::MouseWheel { delta, phase, distance } => seq![
            effect::act(Step::SetMouseVisible(true)),
            effect::act(Step::MouseWheel(delta, phase, distance)),
        ],
        WindowEvent::Focused { is_focused, own_window } => if own_window {
            window_focus_effects(is_focused, term.mode)
        } else {
            Seq::empty()
        },
        WindowEvent::DroppedFile(path) => seq![
            EffectView::WriteToPty(vstd::utf8::encode_utf8(path@.push(' '))),
        ],
        WindowEvent::CursorLeft => if processor.highlighted_url is Some {
            seq![effect::act(Step::MarkDirty)]
        } else {
            Seq::empty()
        },
        _ => Seq::empty(),
    }
}

/// What an event sets off.
pub open spec fn event_effects(
    event: HostEvent,
    processor: Processor,
    term: TermView,
    host: HostView,
) -> Seq<EffectView> {
    match event {
        HostEvent::UserEvent(event) => user_effects(event, processor, term, host),
        HostEvent::WindowEvent(event) => window_effects(event, processor, term, host),
        HostEvent::RedrawRequested => seq![effect::act(Step::MarkDirty)],
        _ => Seq::empty(),
    }
}

/// The state after an event.
pub open spec fn processor_after(
    event: HostEvent,
    processor: Processor,
    term: TermView,
    host: HostView,
) -> Processor {
    let ctx = processor.ctx;
    match event {
        HostEvent::UserEvent(Event::Message(_)) => Processor {
            ctx: ActionContext { display_update_pending: true, ..ctx },
            ..processor
        },
        HostEvent::UserEvent(Event::ConfigReload(_)) => Processor {
            ctx: ActionContext {
                display_update_pending: ctx.display_update_pending || host.message_lines is Some,
                ..ctx
            },
            ..processor
        },
        HostEvent::UserEvent(Event::BlinkCursor) => Processor {
            ctx: ActionContext { cursor_hidden: !ctx.cursor_hidden, ..ctx },
            ..processor
        },
        HostEvent::WindowEvent(WindowEvent::KeyboardInput { input, is_synthetic }) =>
            if is_synthetic {
                processor
            } else {
                Processor { ctx: keys::context_after_key(ctx, input, term.mode), ..processor }
            },
        HostEvent::WindowEvent(WindowEvent::ReceivedCharacter(_)) => Processor {
            ctx: keys::context_after_char(ctx, term.mode, host),
            ..processor
        },
        HostEvent::WindowEvent(WindowEvent::MouseInput { state, button }) => Processor {
            ctx: input::context_after_click(ctx, button, state, host),
            ..processor
        },
        HostEvent::WindowEvent(WindowEvent::CursorLeft) => processor.with_mouse(
            Mouse { inside_text_area: false, ..ctx.mouse },
        ),
        _ => processor,
    }
}

/// The numbers that an event is counted in or compared with fit into a machine word.
pub open spec fn event_fits(
    event: HostEvent,
    ctx: ActionContext,
    term: TermView,
    host: HostView,
) -> bool {
    match event {
        HostEvent::WindowEvent(WindowEvent::ReceivedCharacter(_)) => keys::typed(ctx, term.mode)
            ==> ctx.received_count < usize::MAX,
        HostEvent::WindowEvent(WindowEvent::MouseInput { state, .. }) => input::click_fits(
            ctx,
            state,
            host,
        ),
        _ => true,
    }
}

/// What new settings change in the window system.
pub open spec fn reload_platform_effects(config: Config, platform: Platform) -> Seq<EffectView> {
    if platform is Wayland {
        seq![effect::act(Step::UpdateWindowTheme)]
    } else if platform is MacOs {
        seq![effect::act(Step::SetFontSmoothing(config.use_thin_strokes))]
    } else {
        Seq::empty()
    }
}

/// What new settings set off.
pub open spec fn reload_effects(
    ctx: ActionContext,
    config: Config,
    changes: ConfigChanges,
    platform: Platform,
) -> Seq<EffectView> {
    seq![effect::act(Step::UpdateTerminalConfig)] + (if changes.cursor_thickness {
        seq![effect::act(Step::SetCursorDirty)]
    } else {
        Seq::empty()
    }) + (if changes.font {
        seq![effect::act(Step::SetFont(reloaded_font_size(ctx, config, changes)))]
    } else {
        Seq::empty()
    }) + (if !config.dynamic_title || ctx.config.title@ != config.title@ {
        seq![EffectView::SetTitle(config.title@)]
    } else {
        Seq::empty()
    }) + reload_platform_effects(config, platform) + seq![
        effect::act(Step::UpdateCursorBlinking),
        effect::act(Step::MarkDirty),
    ]
}

/// The font size under new settings: one that was changed at runtime is kept.
pub open spec fn reloaded_font_size(
    ctx: ActionContext,
    config: Config,
    changes: ConfigChanges,
) -> i16 {
    if changes.font && ctx.font_size == ctx.config.font_size {
        config.font_size
    } else {
        ctx.font_size
    }
}

impl Processor {
    fn handle_terminal_event(&self, event: TerminalEvent, term: &TermView) -> (r: Vec<Effect>)
        ensures
            effect::values(r) == terminal_effects(event, self.ctx.config, *term),
    {
        let config = &self.ctx.config;
        let mut fx = effect::none();
        match event {
            TerminalEvent::Title(title) => {
                if config.dynamic_title {
                    effect::emit(&mut fx, Effect::SetTitle(title));
                }
            },
            TerminalEvent::ResetTitle => {
                if config.dynamic_title {
                    effect::emit(&mut fx, Effect::SetTitle(config.title.clone()));
                }
            },
            TerminalEvent::Wakeup => {
                effect::step(&mut fx, Step::MarkDirty);
            },
            TerminalEvent::Close(_) => {
                effect::step(&mut fx, Step::RemoveSelectedTab);
            },
            TerminalEvent::Bell => {
                if let Some(command) = &config.bell_command {
                    effect::emit(&mut fx, Effect::StartDaemon(context::clone_command(command)));
                }
                if term.mode.urgency_hints {
                    effect::step(&mut fx, Step::SetUrgent(!term.is_focused));
                }
                assert(effect::values(fx) =~= bell_effects(*config, *term));
            },
            TerminalEvent::ClipboardStore(clipboard_type, content) => {
                effect::emit(&mut fx, Effect::StoreClipboard(clipboard_type, content));
            },
            TerminalEvent::ClipboardLoad(clipboard_type, format) => {
                effect::step(&mut fx, Step::AnswerClipboard(clipboard_type, format));
            },
            TerminalEvent::MouseCursorDirty => {
                effect::step(&mut fx, Step::ResetMouseCursor);
            },
            TerminalEvent::Exit => {},
            TerminalEvent::CursorBlinkingChange(_) => {
                effect::step(&mut fx, Step::UpdateCursorBlinking);
            },
        }
        fx
    }

    fn handle_user_event(&mut self, event: Event, term: &TermView, host: &HostView) -> (r: Vec<
        Effect,
    >)
        ensures
            *final(self) == processor_after(
                HostEvent::UserEvent(event),
                *old(self),
                *term,
                *host,
            ),
            effect::values(r) == user_effects(event, *old(self), *term, *host),
    {
        let mut fx = effect::none();
        match event {
            Event::TestEvent => {},
            Event::DPRChanged(scale_factor, (width, height)) => {
                // Push current font to update its DPR.
                effect::step(&mut fx, Step::SetFont(self.ctx.font_size));
                // Resize to event's dimensions, since no resize event is emitted on Wayland.
                effect::step(&mut fx, Step::SetDimensions(width, height));
                effect::step(&mut fx, Step::SetScaleFactor(scale_factor));
                effect::step(&mut fx, Step::MarkDirty);
            },
            Event::Message(message) => {
                effect::step(&mut fx, Step::PushMessage(message));
                self.ctx.display_update_pending = true;
                effect::step(&mut fx, Step::MarkDirty);
            },
            Event::SearchNext => {
                effect::step(&mut fx, Step::GotoMatch(None));
            },
            Event::ConfigReload(path) => {
                if host.message_lines.is_some() {
                    effect::step(&mut fx, Step::RemoveConfigMessages);
                    self.ctx.display_update_pending = true;
                }
                effect::emit(&mut fx, Effect::ReloadConfig(path));
            },
            Event::Scroll(scroll) => {
                effect::step(&mut fx, Step::Scroll(scroll));
            },
            Event::BlinkCursor => {
                self.ctx.cursor_hidden = !self.ctx.cursor_hidden;
                effect::step(&mut fx, Step::MarkDirty);
            },
            Event::TerminalEvent(event) => {
                return self.handle_terminal_event(event, term);
            },
        }
        fx
    }

    fn handle_focus(&self, is_focused: bool, mode: &TermMode) -> (r: Vec<Effect>)
        ensures
            effect::values(r) == window_focus_effects(is_focused, *mode),
    {
        let mut fx = effect::none();
        effect::step(&mut fx, Step::SetFocused(is_focused));
        effect::step(&mut fx, Step::MarkDirty);
        if is_focused {
            effect::step(&mut fx, Step::SetUrgent(false));
        } else {
            effect::step(&mut fx, Step::SetMouseVisible(true));
        }
        effect::step(&mut fx, Step::UpdateCursorBlinking);
        effect::extend(&mut fx, self.on_focus_change(is_focused, mode));
        fx
    }

    fn handle_window_event(&mut self, event: WindowEvent, term: &TermView, host: &HostView) -> (r:
        Vec<Effect>)
        requires
            event_fits(HostEvent::WindowEvent(event), old(self).ctx, *term, *host),
        ensures
            *final(self) == processor_after(
                HostEvent::WindowEvent(event),
                *old(self),
                *term,
                *host,
            ),
            effect::values(r) == window_effects(event, *old(self), *term, *host),
    {
        let mut fx = effect::none();
        match event {
            WindowEvent::CloseRequested => {
                effect::step(&mut fx, Step::ExitTerminal);
            },
            WindowEvent::Resized(width, height) => {
                // Minimizing the window sends a Resize event with zero width and height. But
                // there's no need to ever actually resize to this. Both WinPTY & ConPTY have
                // issues when resizing down to zero size and back.
                if host.platform == Platform::Windows && width == 0 && height == 0 {
                    return fx;
                }
                effect::step(&mut fx, Step::SetDimensions(width, height));
                effect::step(&mut fx, Step::MarkDirty);
            },
            WindowEvent::KeyboardInput { input, is_synthetic } => {
                if !is_synthetic {
                    return self.key_input(input, &term.mode, host);
                }
            },
            WindowEvent::ReceivedCharacter(c) => {
                return self.received_char(c, &term.mode, host);
            },
            WindowEvent::MouseInput { state, button } => {
                effect::step(&mut fx, Step::SetMouseVisible(true));
                effect::extend(&mut fx, self.mouse_input(state, button, &term.mode, host));
                effect::step(&mut fx, Step::MarkDirty);
            },
            WindowEvent::ModifiersChanged(modifiers) => {
                effect::step(&mut fx, Step::ModifiersInput(modifiers));
            },
            WindowEvent::CursorMoved { x, y } => {
                effect::step(&mut fx, Step::SetMouseVisible(true));
                effect::step(&mut fx, Step::MouseMoved(x, y));
            },
            WindowEvent::MouseWheel { delta, phase, distance } => {
                effect::step(&mut fx, Step::SetMouseVisible(true));
                effect::step(&mut fx, Step::MouseWheel(delta, phase, distance));
            },
            WindowEvent::Focused { is_focused, own_window } => {
                if own_window {
                    return self.handle_focus(is_focused, &term.mode);
                }
            },
            WindowEvent::DroppedFile(path) => {
                let mut path = path;
                path.push(' ');
                effect::emit(&mut fx, Effect::WriteToPty(text::bytes_of(path.as_str())));
            },
            WindowEvent::CursorLeft => {
                self.ctx.mouse.inside_text_area = false;
                if self.highlighted_url.is_some() {
                    effect::step(&mut fx, Step::MarkDirty);
                }
            },
            _ => {},
        }
        fx
    }

    /// Handle an event that was queued.
    pub fn handle_event(&mut self, event: HostEvent, term: &TermView, host: &HostView) -> (r: Vec<
        Effect,
    >)
        requires
            event_fits(event, old(self).ctx, *term, *host),
        ensures
            *final(self) == processor_after(event, *old(self), *term, *host),
            effect::values(r) == event_effects(event, *old(self), *term, *host),
    {
        match event {
            HostEvent::UserEvent(event) => self.handle_user_event(event, term, host),
            HostEvent::WindowEvent(event) => self.handle_window_event(event, term, host),
            HostEvent::RedrawRequested => {
                let mut fx = effect::none();
                effect::step(&mut fx, Step::MarkDirty);
                fx
            },
            _ => effect::none(),
        }
    }

    /// Take over new settings.
    pub fn reload_config(&mut self, config: Config, changes: ConfigChanges, platform: Platform) ->
        (r: Vec<Effect>)
        ensures
            *final(self) == (Processor {
                ctx: ActionContext {
                    font_size: reloaded_font_size(old(self).ctx, config, changes),
                    display_update_pending: old(self).ctx.display_update_pending
                        || changes.padding,
                    config,
                    ..old(self).ctx
                },
                ..*old(self)
            }),
            effect::values(r) == reload_effects(old(self).ctx, config, changes, platform),
    {
        let fx = self.reload_list(&config, changes, platform);
        // Do not update font size if it has been changed at runtime.
        if changes.font && self.ctx.font_size == self.ctx.config.font_size {
            self.ctx.font_size = config.font_size;
        }
        // Update display if padding options were changed.
        if changes.padding {
            self.ctx.display_update_pending = true;
        }
        self.ctx.config = config;
        fx
    }

    fn reload_list(&self, config: &Config, changes: ConfigChanges, platform: Platform) -> (r: Vec<
        Effect,
    >)
        ensures
            effect::values(r) == reload_effects(self.ctx, *config, changes, platform),
    {
        let mut fx = effect::none();
        effect::step(&mut fx, Step::UpdateTerminalConfig);
        // Reload cursor if its thickness has changed.
        if changes.cursor_thickness {
            effect::step(&mut fx, Step::SetCursorDirty);
        }
        let ghost cursor = effect::values(fx);
        if changes.font {
            let size: i16 = if self.ctx.font_size == self.ctx.config.font_size {
                config.font_size
            } else {
                self.ctx.font_size
            };
            effect::step(&mut fx, Step::SetFont(size));
        }
        let ghost font = effect::values(fx);
        // Live title reload.
        if !config.dynamic_title || !(self.ctx.config.title == config.title) {
            effect::emit(&mut fx, Effect::SetTitle(config.title.clone()));
        }
        let ghost title = effect::values(fx);
        effect::extend(&mut fx, Self::reload_platform(config, platform));
        effect::step(&mut fx, Step::UpdateCursorBlinking);
        effect::step(&mut fx, Step::MarkDirty);
        proof {
            let start = seq![effect::act(Step::UpdateTerminalConfig)];
            assert(cursor =~= start + (if changes.cursor_thickness {
                seq![effect::act(Step::SetCursorDirty)]
            } else {
                Seq::empty()
            }));
            assert(font =~= cursor + (if changes.font {
                seq![effect::act(Step::SetFont(reloaded_font_size(self.ctx, *config, changes)))]
            } else {
                Seq::empty()
            }));
            assert(title =~= font + (if !config.dynamic_title || self.ctx.config.title@
                != config.title@ {
                seq![EffectView::SetTitle(config.title@)]
            } else {
                Seq::empty()
            }));
            assert(effect::values(fx) =~= title + reload_platform_effects(*config, platform)
                + seq![effect::act(Step::UpdateCursorBlinking), effect::act(Step::MarkDirty)]);
        }
        fx
    }

    fn reload_platform(config: &Config, platform: Platform) -> (r: Vec<Effect>)
        ensures
            effect::values(r) == reload_platform_effects(*config, platform),
    {
        let mut fx = effect::none();
        match platform {
            Platform::Wayland => {
                effect::step(&mut fx, Step::UpdateWindowTheme);
            },
            // Set subpixel anti-aliasing.
            Platform::MacOs => {
                effect::step(&mut fx, Step::SetFontSmoothing(config.use_thin_strokes));
            },
            _ => {},
        }
        fx
    }

    /// Whether the origin of the search is in the last line.
    pub open spec fn origin_is_at_bottom(self, term: TermView) -> bool {
        if term.mode.vi {
            term.vi_cursor.line.0 == term.screen_lines - 1
        } else {
            self.ctx.search_state@.direction is Left
        }
    }

    /// Compute cursor positions before resize: whether the cursor, and whether the origin of the
    /// search, is in the last line.
    pub fn positions_at_bottom(&self, term: &TermView, cursor_line: usize) -> (r: (bool, bool))
        requires
            term.wf(),
            cursor_line < usize::MAX,
        ensures
            r.0 == (cursor_line + 1 == term.screen_lines),
            r.1 == self.origin_is_at_bottom(*term),
    {
        let origin_at_bottom = if term.mode.vi {
            term.vi_cursor.line.0 == term.screen_lines - 1
        } else {
            self.ctx.search_state.direction() == Direction::Left
        };
        (cursor_line + 1 == term.screen_lines, origin_at_bottom)
    }

    /// The scroll that follows on a resize of the display, for the positions before it. Where a
    /// search has just begun, its origin stays visible and content moves as little as possible.
    pub fn submit_display_update(
        &self,
        old_is_searching: bool,
        display_offset: usize,
        cursor_at_bottom: bool,
        origin_at_bottom: bool,
    ) -> (r: Vec<Effect>)
        ensures
            effect::values(r) == search_scroll(
                !old_is_searching && self.ctx.searching(),
                display_offset as int,
                cursor_at_bottom,
                origin_at_bottom,
            ),
    {
        let mut fx = effect::none();
        // Scroll to make sure search origin is visible and content moves as little as possible.
        if !old_is_searching && self.ctx.search_active() {
            if display_offset == 0 && cursor_at_bottom && !origin_at_bottom {
                effect::step(&mut fx, Step::ScrollDisplay(Scroll::Delta(1)));
            } else if display_offset != 0 && origin_at_bottom {
                effect::step(&mut fx, Step::ScrollDisplay(Scroll::Delta(-1)));
            }
        }
        fx
    }
}

/// The bar of a search that has just begun takes a line: the content moves up where the cursor
/// would be covered, and down where the origin would be.
pub open spec fn search_scroll(
    search_began: bool,
    display_offset: int,
    cursor_at_bottom: bool,
    origin_at_bottom: bool,
) -> Seq<EffectView> {
    if search_began && display_offset == 0 && cursor_at_bottom && !origin_at_bottom {
        seq![effect::act(Step::ScrollDisplay(Scroll::Delta(1)))]
    } else if search_began && display_offset != 0 && origin_at_bottom {
        seq![effect::act(Step::ScrollDisplay(Scroll::Delta((-1) as isize)))]
    } else {
        Seq::empty()
    }
}

/// The settings of a recorded session: `{"history_size":N}`.
pub open spec fn recorded_config(history_size: nat) -> Seq<char> {
    "{\"history_size\":"@ + text::decimal(history_size) + "}"@
}

/// The settings of a recorded session.
pub fn ref_test_config(history_size: usize) -> (r: String)
    ensures
        r@ == recorded_config(history_size as nat),
{
    let mut config = "{\"history_size\":".to_owned();
    text::push_decimal(&mut config, history_size);
    config.append("}");
    config
}

/// A font size that was changed at runtime outlives every reload of the settings.
pub proof fn law_reload_keeps_changed_font_size(
    ctx: ActionContext,
    config: Config,
    changes: ConfigChanges,
)
    requires
        ctx.font_size != ctx.config.font_size,
    ensures
        reloaded_font_size(ctx, config, changes) == ctx.font_size,
{
}

/// Two ticks of the blink timer leave the cursor as it was.
pub proof fn law_blinking_twice_changes_nothing(
    processor: Processor,
    term: TermView,
    host: HostView,
)
    ensures
        ({
            let tick = HostEvent::UserEvent(Event::BlinkCursor);
            processor_after(tick, processor_after(tick, processor, term, host), term, host)
                == processor
        }),
{
}

} // verus!
