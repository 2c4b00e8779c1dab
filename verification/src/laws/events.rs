//! Laws of the events.
use crate::config::Config;
use crate::context::{ActionContext, Mouse};
use crate::effect::{EffectView, Step};
use crate::event::{ConfigChanges, Event, HostEvent, TerminalEvent, WindowEvent};
use crate::index::Direction;
use crate::input::Processor;
use crate::laws;
use crate::term::{
    ClipboardType, CursorIcon, ElementState, HostView, KeyboardInput, ModifiersState, MouseButton,
    Platform, Scroll, TermMode, TermView, TouchPhase,
};
use crate::wheel::WheelDelta;
use vstd::prelude::*;
use vstd::std_specs::convert::FromSpec;

verus! {

/// What an event of a terminal has done.
pub open spec fn of_terminal(
    event: TerminalEvent,
    processor: Processor,
    term: TermView,
    host: HostView,
) -> Seq<EffectView> {
    crate::handler::event_effects(
        HostEvent::UserEvent(Event::TerminalEvent(event)),
        processor,
        term,
        host,
    )
}

/// What an event of the program itself has done.
pub open spec fn of_program(
    event: Event,
    processor: Processor,
    term: TermView,
    host: HostView,
) -> Seq<EffectView> {
    crate::handler::event_effects(HostEvent::UserEvent(event), processor, term, host)
}

/// What an event of the window has done.
pub open spec fn of_window(
    event: WindowEvent,
    processor: Processor,
    term: TermView,
    host: HostView,
) -> Seq<EffectView> {
    crate::handler::event_effects(HostEvent::WindowEvent(event), processor, term, host)
}

/// New content, a request of the window system to draw, and a blink of the cursor always have the
/// display drawn again.
pub proof fn law_new_content_is_drawn(processor: Processor, term: TermView, host: HostView)
    ensures
        laws::does(
            of_terminal(TerminalEvent::Wakeup, processor, term, host),
            Step::MarkDirty,
        ),
        laws::does(
            crate::handler::event_effects(HostEvent::RedrawRequested, processor, term, host),
            Step::MarkDirty,
        ),
        laws::does(of_program(Event::BlinkCursor, processor, term, host), Step::MarkDirty),
        of_terminal(TerminalEvent::Wakeup, processor, term, host).len() == 1,
        of_program(Event::BlinkCursor, processor, term, host).len() == 1,
{
    laws::lemma_does(
        of_terminal(TerminalEvent::Wakeup, processor, term, host),
        0,
        Step::MarkDirty,
    );
    laws::lemma_does(
        crate::handler::event_effects(HostEvent::RedrawRequested, processor, term, host),
        0,
        Step::MarkDirty,
    );
    laws::lemma_does(of_program(Event::BlinkCursor, processor, term, host), 0, Step::MarkDirty);
}

/// An event of a terminal is delivered as this event, and one of the program as it is.
pub proof fn law_delivered_events(terminal: TerminalEvent, event: Event)
    ensures
        <Event as FromSpec<TerminalEvent>>::from_spec(terminal) == Event::TerminalEvent(terminal),
        <HostEvent as FromSpec<Event>>::from_spec(event) == HostEvent::UserEvent(event),
{
}

/// A blink shows a hidden cursor and hides a shown one, and changes nothing else.
pub proof fn law_blink_turns_the_cursor(processor: Processor, term: TermView, host: HostView)
    ensures
        ({
            let after = crate::handler::processor_after(
                HostEvent::UserEvent(Event::BlinkCursor),
                processor,
                term,
                host,
            );
            &&& after.ctx.cursor_hidden != processor.ctx.cursor_hidden
            &&& after == (Processor {
                ctx: ActionContext { cursor_hidden: !processor.ctx.cursor_hidden, ..processor.ctx },
                ..processor
            })
        }),
{
}

/// A terminal names the window where the settings let it: by the title that it sends, and by the
/// configured one when it takes its title back. Otherwise the window keeps its name.
pub proof fn law_titles(title: String, processor: Processor, term: TermView, host: HostView)
    ensures
        ({
            let set = of_terminal(TerminalEvent::Title(title), processor, term, host);
            let reset = of_terminal(TerminalEvent::ResetTitle, processor, term, host);
            let dynamic = processor.ctx.config.dynamic_title;
            &&& dynamic ==> set == seq![EffectView::SetTitle(title@)]
            &&& dynamic ==> reset == seq![EffectView::SetTitle(processor.ctx.config.title@)]
            &&& !dynamic ==> set.len() == 0 && reset.len() == 0
        }),
{
}

/// A bell starts the configured command, where there is one, and asks for attention where the
/// terminal has this on: it does so exactly while the terminal has no focus.
pub proof fn law_bell(processor: Processor, term: TermView, host: HostView)
    ensures
        ({
            let effects = of_terminal(TerminalEvent::Bell, processor, term, host);
            let command = processor.ctx.config.bell_command;
            &&& command matches Some(c) ==> effects.contains(EffectView::StartDaemon(c.deep_view()))
            &&& command is None ==> forall|i: int|
                0 <= i < effects.len() ==> !(#[trigger] effects[i] is StartDaemon)
            &&& term.mode.urgency_hints ==> laws::does(effects, Step::SetUrgent(!term.is_focused))
            &&& !laws::does(effects, Step::SetUrgent(term.is_focused))
            &&& !term.mode.urgency_hints ==> !laws::does(effects, Step::SetUrgent(!term.is_focused))
            &&& effects.len() == laws::one_if(command is Some) + laws::one_if(term.mode.urgency_hints)
            &&& command matches Some(c) ==> effects[0] == EffectView::StartDaemon(c.deep_view())
        }),
{
    let effects = of_terminal(TerminalEvent::Bell, processor, term, host);
    let command = processor.ctx.config.bell_command;
    if command is Some {
        assert(effects[0] == EffectView::StartDaemon(command->0.deep_view()));
    }
    if term.mode.urgency_hints {
        laws::lemma_does(effects, effects.len() - 1, Step::SetUrgent(!term.is_focused));
    }
}

/// What a terminal stores in a clipboard is stored there as it is, and what it asks for is answered
/// from the clipboard that it names.
pub proof fn law_clipboard_events(
    ty: ClipboardType,
    text: String,
    format: u64,
    processor: Processor,
    term: TermView,
    host: HostView,
)
    ensures
        of_terminal(TerminalEvent::ClipboardStore(ty, text), processor, term, host) == seq![
            EffectView::StoreClipboard(ty, text@),
        ],
        of_terminal(TerminalEvent::ClipboardLoad(ty, format), processor, term, host) == seq![
            EffectView::Do(Step::AnswerClipboard(ty, format)),
        ],
{
}

/// A terminal that ends has its tab closed; one that changes the mouse or the cursor has the
/// pointer or the blinking set anew.
pub proof fn law_terminal_changes(
    id: usize,
    blinking: bool,
    processor: Processor,
    term: TermView,
    host: HostView,
)
    ensures
        of_terminal(TerminalEvent::Close(id), processor, term, host) == seq![
            EffectView::Do(Step::RemoveSelectedTab),
        ],
        of_terminal(TerminalEvent::MouseCursorDirty, processor, term, host) == seq![
            EffectView::Do(Step::ResetMouseCursor),
        ],
        of_terminal(TerminalEvent::CursorBlinkingChange(blinking), processor, term, host) == seq![
            EffectView::Do(Step::UpdateCursorBlinking),
        ],
        of_terminal(TerminalEvent::Exit, processor, term, host).len() == 0,
{
}

/// The window takes the new size and is drawn; on Windows a size of zero, which stands for a
/// minimized window, is passed over.
pub proof fn law_resized_window(
    width: u32,
    height: u32,
    processor: Processor,
    term: TermView,
    host: HostView,
)
    ensures
        ({
            let effects = of_window(WindowEvent::Resized(width, height), processor, term, host);
            let minimized = host.platform is Windows && width == 0 && height == 0;
            &&& minimized ==> effects.len() == 0
            &&& !minimized ==> laws::does(effects, Step::SetDimensions(width, height))
                && laws::does(effects, Step::MarkDirty) && effects.len() == 2
        }),
{
    let effects = of_window(WindowEvent::Resized(width, height), processor, term, host);
    if !(host.platform is Windows && width == 0 && height == 0) {
        laws::lemma_does(effects, 0, Step::SetDimensions(width, height));
        laws::lemma_does(effects, 1, Step::MarkDirty);
    }
}

/// A window that is closed ends the terminal. A file dropped on it is typed as its path and a blank.
pub proof fn law_closed_and_dropped(
    path: String,
    processor: Processor,
    term: TermView,
    host: HostView,
)
    ensures
        of_window(WindowEvent::CloseRequested, processor, term, host) == seq![
            EffectView::Do(Step::ExitTerminal),
        ],
        of_window(WindowEvent::DroppedFile(path), processor, term, host) == seq![
            EffectView::WriteToPty(vstd::utf8::encode_utf8(path@ + seq![' '])),
        ],
{
    assert(path@ + seq![' '] =~= path@.push(' '));
}

/// A change of the focus of the own window is noted, drawn and told to the program that asked for
/// it, and has the blinking set anew. A window that gets the focus needs no attention any more; one
/// that loses it shows the pointer. The focus of another window is of no concern.
pub proof fn law_focus(is_focused: bool, processor: Processor, term: TermView, host: HostView)
    ensures
        ({
            let own = of_window(
                WindowEvent::Focused { is_focused, own_window: true },
                processor,
                term,
                host,
            );
            let other = of_window(
                WindowEvent::Focused { is_focused, own_window: false },
                processor,
                term,
                host,
            );
            &&& other.len() == 0
            &&& laws::does(own, Step::SetFocused(is_focused))
            &&& !laws::does(own, Step::SetFocused(!is_focused))
            &&& laws::does(own, Step::MarkDirty)
            &&& laws::does(own, Step::UpdateCursorBlinking)
            &&& laws::does(own, Step::SetUrgent(false)) <==> is_focused
            &&& laws::does(own, Step::SetMouseVisible(true)) <==> !is_focused
            &&& own.skip(4) == crate::wheel::focus_effects(is_focused, term.mode)
        }),
{
    let own = of_window(
        WindowEvent::Focused { is_focused, own_window: true },
        processor,
        term,
        host,
    );
    laws::lemma_does(own, 0, Step::SetFocused(is_focused));
    laws::lemma_does(own, 1, Step::MarkDirty);
    if is_focused {
        laws::lemma_does(own, 2, Step::SetUrgent(false));
    } else {
        laws::lemma_does(own, 2, Step::SetMouseVisible(true));
    }
    laws::lemma_does(own, 3, Step::UpdateCursorBlinking);
    assert(own.skip(4) =~= crate::wheel::focus_effects(is_focused, term.mode));
}

/// Every use of the mouse shows the pointer before anything else. A motion, a turn and held keys are
/// handed on as they come.
pub proof fn law_mouse_is_shown_when_used(
    x: i32,
    y: i32,
    delta: WheelDelta,
    phase: TouchPhase,
    distance: u64,
    modifiers: ModifiersState,
    processor: Processor,
    term: TermView,
    host: HostView,
)
    ensures
        of_window(WindowEvent::CursorMoved { x, y }, processor, term, host) == seq![
            EffectView::Do(Step::SetMouseVisible(true)),
            EffectView::Do(Step::MouseMoved(x, y)),
        ],
        of_window(WindowEvent::MouseWheel { delta, phase, distance }, processor, term, host)
            == seq![
            EffectView::Do(Step::SetMouseVisible(true)),
            EffectView::Do(Step::MouseWheel(delta, phase, distance)),
        ],
        of_window(WindowEvent::ModifiersChanged(modifiers), processor, term, host) == seq![
            EffectView::Do(Step::ModifiersInput(modifiers)),
        ],
{
}

/// A button shows the pointer, does what a click at this place does, and has the display drawn; it
/// is held from then on, or no longer.
pub proof fn law_mouse_button_event(
    state: ElementState,
    button: MouseButton,
    processor: Processor,
    term: TermView,
    host: HostView,
)
    ensures
        ({
            let event = WindowEvent::MouseInput { state, button };
            let effects = of_window(event, processor, term, host);
            let after = crate::handler::processor_after(
                HostEvent::WindowEvent(event),
                processor,
                term,
                host,
            );
            let n = effects.len();
            &&& n >= 2
            &&& effects[0] == EffectView::Do(Step::SetMouseVisible(true))
            &&& effects[n - 1] == EffectView::Do(Step::MarkDirty)
            &&& effects.subrange(1, n - 1) == crate::input::click_effects(
                processor.ctx,
                button,
                state,
                term.mode,
                host,
            )
            &&& button is Left ==> after.ctx.mouse.left_button_state == state
            &&& button is Middle ==> after.ctx.mouse.middle_button_state == state
            &&& button is Right ==> after.ctx.mouse.right_button_state == state
            &&& after == (Processor {
                ctx: crate::input::context_after_click(processor.ctx, button, state, host),
                ..processor
            })
        }),
{
    let effects = of_window(WindowEvent::MouseInput { state, button }, processor, term, host);
    let click = crate::input::click_effects(processor.ctx, button, state, term.mode, host);
    assert(effects.subrange(1, effects.len() - 1) =~= click);
}

/// A pointer that leaves the window leaves the text area, and the address that was highlighted is
/// drawn without that.
pub proof fn law_pointer_leaves(processor: Processor, term: TermView, host: HostView)
    ensures
        ({
            let effects = of_window(WindowEvent::CursorLeft, processor, term, host);
            let after = crate::handler::processor_after(
                HostEvent::WindowEvent(WindowEvent::CursorLeft),
                processor,
                term,
                host,
            );
            &&& laws::does(effects, Step::MarkDirty) <==> processor.highlighted_url is Some
            &&& effects.len() <= 1
            &&& !after.ctx.mouse.inside_text_area
            &&& after == (Processor {
                ctx: ActionContext {
                    mouse: Mouse { inside_text_area: false, ..processor.ctx.mouse },
                    ..processor.ctx
                },
                ..processor
            })
        }),
{
    if processor.highlighted_url is Some {
        laws::lemma_does(
            of_window(WindowEvent::CursorLeft, processor, term, host),
            0,
            Step::MarkDirty,
        );
    }
}

/// A key of the keyboard does what key input does, and a character what a typed character does; a
/// key that the window system made up does nothing.
pub proof fn law_keyboard_events(
    input: KeyboardInput,
    c: char,
    processor: Processor,
    term: TermView,
    host: HostView,
)
    ensures
        ({
            let struck = WindowEvent::KeyboardInput { input, is_synthetic: false };
            let made_up = WindowEvent::KeyboardInput { input, is_synthetic: true };
            let typed = WindowEvent::ReceivedCharacter(c);
            &&& of_window(struck, processor, term, host) == crate::keys::key_effects(
                processor.ctx,
                input,
                term.mode,
                host,
            )
            &&& crate::handler::processor_after(
                HostEvent::WindowEvent(struck),
                processor,
                term,
                host,
            ).ctx == crate::keys::context_after_key(processor.ctx, input, term.mode)
            &&& of_window(made_up, processor, term, host).len() == 0
            &&& crate::handler::processor_after(
                HostEvent::WindowEvent(made_up),
                processor,
                term,
                host,
            ) == processor
            &&& of_window(typed, processor, term, host) == crate::keys::char_effects(
                processor.ctx,
                c,
                term.mode,
                host,
            )
            &&& crate::handler::processor_after(
                HostEvent::WindowEvent(typed),
                processor,
                term,
                host,
            ).ctx == crate::keys::context_after_char(processor.ctx, term.mode, host)
        }),
{
}

/// Another scale has the font, the window and the scale itself set, and the display drawn.
pub proof fn law_scale_changes(
    scale: u64,
    width: u32,
    height: u32,
    processor: Processor,
    term: TermView,
    host: HostView,
)
    ensures
        ({
            let effects = of_program(
                Event::DPRChanged(scale, (width, height)),
                processor,
                term,
                host,
            );
            &&& laws::does(effects, Step::SetFont(processor.ctx.font_size))
            &&& laws::does(effects, Step::SetDimensions(width, height))
            &&& laws::does(effects, Step::SetScaleFactor(scale))
            &&& laws::does(effects, Step::MarkDirty)
            &&& effects.len() == 4
        }),
{
    let effects = of_program(Event::DPRChanged(scale, (width, height)), processor, term, host);
    laws::lemma_does(effects, 0, Step::SetFont(processor.ctx.font_size));
    laws::lemma_does(effects, 1, Step::SetDimensions(width, height));
    laws::lemma_does(effects, 2, Step::SetScaleFactor(scale));
    laws::lemma_does(effects, 3, Step::MarkDirty);
}

/// A message is put up and drawn, and makes room for its bar.
pub proof fn law_messages(message: u64, processor: Processor, term: TermView, host: HostView)
    ensures
        ({
            let effects = of_program(Event::Message(message), processor, term, host);
            let after = crate::handler::processor_after(
                HostEvent::UserEvent(Event::Message(message)),
                processor,
                term,
                host,
            );
            &&& laws::does(effects, Step::PushMessage(message))
            &&& laws::does(effects, Step::MarkDirty)
            &&& effects.len() == 2
            &&& after == (Processor {
                ctx: ActionContext { display_update_pending: true, ..processor.ctx },
                ..processor
            })
        }),
{
    let effects = of_program(Event::Message(message), processor, term, host);
    laws::lemma_does(effects, 0, Step::PushMessage(message));
    laws::lemma_does(effects, 1, Step::MarkDirty);
}

/// Settings are read again from the file that changed. The messages about the former settings are
/// taken down first, where a message is shown.
pub proof fn law_settings_are_read_again(
    path: String,
    processor: Processor,
    term: TermView,
    host: HostView,
)
    ensures
        ({
            let effects = of_program(Event::ConfigReload(path), processor, term, host);
            let after = crate::handler::processor_after(
                HostEvent::UserEvent(Event::ConfigReload(path)),
                processor,
                term,
                host,
            );
            &&& effects.len() >= 1
            &&& effects[effects.len() - 1] == EffectView::ReloadConfig(path@)
            &&& laws::does(effects, Step::RemoveConfigMessages) <==> host.message_lines is Some
            &&& effects.len() <= 2
            &&& host.message_lines is Some ==> after == (Processor {
                ctx: ActionContext { display_update_pending: true, ..processor.ctx },
                ..processor
            })
            &&& host.message_lines is None ==> after == processor
        }),
{
    let effects = of_program(Event::ConfigReload(path), processor, term, host);
    if host.message_lines is Some {
        laws::lemma_does(effects, 0, Step::RemoveConfigMessages);
    }
}

/// A search that was put off is done without a limit, and a scroll that was timed is done as it
/// was set.
pub proof fn law_timers(scroll: Scroll, processor: Processor, term: TermView, host: HostView)
    ensures
        of_program(Event::SearchNext, processor, term, host) == seq![
            EffectView::Do(Step::GotoMatch(None)),
        ],
        of_program(Event::Scroll(scroll), processor, term, host) == seq![
            EffectView::Do(Step::Scroll(scroll)),
        ],
        of_program(Event::TestEvent, processor, term, host).len() == 0,
{
}

/// An event changes the context only where it is a message, new settings, a blink, a key, a
/// character, a button or a pointer that leaves.
pub proof fn law_other_events_change_nothing(
    event: HostEvent,
    processor: Processor,
    term: TermView,
    host: HostView,
)
    requires
        match event {
            HostEvent::UserEvent(e) => !(e is Message || e is ConfigReload || e is BlinkCursor),
            HostEvent::WindowEvent(e) => !(e is KeyboardInput || e is ReceivedCharacter
                || e is MouseInput || e is CursorLeft),
            _ => true,
        },
    ensures
        crate::handler::processor_after(event, processor, term, host) == processor,
{
}

/// Only an event that nothing follows from is passed over. The exit of the terminals ends the loop,
/// and the end of a drawing updates the timers; every other event, but for the one of the tests, is
/// collected.
pub proof fn law_turns(event: HostEvent)
    ensures
        ({
            let passed_over = match event {
                HostEvent::WindowEvent(e) => (e is KeyboardInput && e->is_synthetic)
                    || e is TouchpadPressure || e is CursorEntered || e is AxisMotion
                    || e is HoveredFileCancelled || e is Destroyed || e is HoveredFile || e is Touch
                    || e is Moved,
                _ => event is Suspended || event is NewEvents || event is MainEventsCleared
                    || event is LoopDestroyed,
            };
            &&& crate::event::turn(event) is Skip <==> passed_over
            &&& crate::event::irrelevant(event) <==> passed_over
            &&& crate::event::turn(event) is Exit <==> event == HostEvent::UserEvent(
                Event::TerminalEvent(TerminalEvent::Exit),
            )
            &&& crate::event::turn(event) is UpdateTimers <==> event is RedrawEventsCleared
            &&& crate::event::turn(event) is Process <==> event == HostEvent::UserEvent(
                Event::TestEvent,
            )
        }),
{
}

/// A new scale of the window is collected as the event that sets it, with the same numbers; every
/// other event is collected as it is.
pub proof fn law_collected_events(event: HostEvent, scale_factor: u64, width: u32, height: u32)
    ensures
        crate::event::remapped(
            HostEvent::WindowEvent(
                WindowEvent::ScaleFactorChanged { scale_factor, width, height },
            ),
        ) == HostEvent::UserEvent(Event::DPRChanged(scale_factor, (width, height))),
        !(event is WindowEvent && event->WindowEvent_0 is ScaleFactorChanged)
            ==> crate::event::remapped(event) == event,
{
}

/// New settings reach the terminal first; at the end the blinking is set anew and the display is
/// drawn. The window is renamed where programs may not do so, or where the configured title is
/// another.
pub proof fn law_reload(
    ctx: ActionContext,
    config: Config,
    changes: ConfigChanges,
    platform: Platform,
)
    ensures
        ({
            let effects = crate::handler::reload_effects(ctx, config, changes, platform);
            let n = effects.len();
            let size = crate::handler::reloaded_font_size(ctx, config, changes);
            let renamed = !config.dynamic_title || ctx.config.title@ != config.title@;
            let here = platform is Wayland || platform is MacOs;
            &&& n == 3 + laws::one_if(changes.cursor_thickness) + laws::one_if(changes.font)
                + laws::one_if(renamed) + laws::one_if(here)
            &&& effects[0] == EffectView::Do(Step::UpdateTerminalConfig)
            &&& effects[n - 2] == EffectView::Do(Step::UpdateCursorBlinking)
            &&& effects[n - 1] == EffectView::Do(Step::MarkDirty)
            &&& laws::does(effects, Step::SetCursorDirty) <==> changes.cursor_thickness
            &&& laws::does(effects, Step::SetFont(size)) <==> changes.font
            &&& effects.contains(EffectView::SetTitle(config.title@)) <==> (!config.dynamic_title
                || ctx.config.title@ != config.title@)
            &&& laws::does(effects, Step::UpdateWindowTheme) <==> platform is Wayland
            &&& laws::does(effects, Step::SetFontSmoothing(config.use_thin_strokes))
                <==> platform is MacOs
        }),
{
    let effects = crate::handler::reload_effects(ctx, config, changes, platform);
    let size = crate::handler::reloaded_font_size(ctx, config, changes);
    let thickness = laws::one_if(changes.cursor_thickness);
    let font = laws::one_if(changes.font);
    let title = laws::one_if(!config.dynamic_title || ctx.config.title@ != config.title@);
    if changes.cursor_thickness {
        laws::lemma_does(effects, 1, Step::SetCursorDirty);
    }
    if changes.font {
        laws::lemma_does(effects, 1 + thickness, Step::SetFont(size));
    }
    if title == 1 {
        assert(effects[1 + thickness + font] == EffectView::SetTitle(config.title@));
    }
    if platform is Wayland {
        laws::lemma_does(effects, 1 + thickness + font + title, Step::UpdateWindowTheme);
    }
    if platform is MacOs {
        laws::lemma_does(
            effects,
            1 + thickness + font + title,
            Step::SetFontSmoothing(config.use_thin_strokes),
        );
    }
}

/// A changed font takes the newly configured size, unless the size in use was changed by hand; an
/// unchanged font keeps its size.
pub proof fn law_reloaded_font(ctx: ActionContext, config: Config, changes: ConfigChanges)
    ensures
        ({
            let size = crate::handler::reloaded_font_size(ctx, config, changes);
            &&& changes.font && ctx.font_size == ctx.config.font_size ==> size == config.font_size
            &&& !changes.font ==> size == ctx.font_size
        }),
{
}

/// When a search begins, the view moves by one line where its bar would otherwise hide the cell
/// that the search begins at: up with a cursor at the bottom that is not the beginning, and down
/// in the history with a beginning at the bottom.
pub proof fn law_search_bar_hides_nothing(
    began: bool,
    offset: int,
    cursor_at_bottom: bool,
    origin_at_bottom: bool,
)
    requires
        offset >= 0,
    ensures
        ({
            let effects = crate::handler::search_scroll(
                began,
                offset,
                cursor_at_bottom,
                origin_at_bottom,
            );
            let up = began && offset == 0 && cursor_at_bottom && !origin_at_bottom;
            let down = began && offset > 0 && origin_at_bottom;
            &&& laws::does(effects, Step::ScrollDisplay(Scroll::Delta(1))) <==> up
            &&& laws::does(effects, Step::ScrollDisplay(Scroll::Delta((-1) as isize))) <==> down
            &&& !up && !down ==> effects.len() == 0
        }),
{
    let effects = crate::handler::search_scroll(began, offset, cursor_at_bottom, origin_at_bottom);
    if began && offset == 0 && cursor_at_bottom && !origin_at_bottom {
        laws::lemma_does(effects, 0, Step::ScrollDisplay(Scroll::Delta(1)));
    }
    if began && offset > 0 && origin_at_bottom {
        laws::lemma_does(effects, 0, Step::ScrollDisplay(Scroll::Delta((-1) as isize)));
    }
}

/// A search begins at the bottom where the vi mode cursor is on the last line, or, outside of vi
/// mode, where it leads backwards.
pub proof fn law_search_begins_at_the_bottom(processor: Processor, term: TermView)
    requires
        term.screen_lines >= 1,
    ensures
        term.mode.vi ==> (processor.origin_is_at_bottom(term) <==> term.vi_cursor.line.0 + 1
            == term.screen_lines),
        !term.mode.vi ==> (processor.origin_is_at_bottom(term)
            <==> processor.ctx.search_state@.direction == Direction::Left),
{
}

/// A click on what is left of the message bar has the pointer take the shape of what is below it
/// then: an arrow on a bar that is still there, a hand on its button, and otherwise what a program
/// or the text has there.
pub proof fn law_pointer_after_a_message(current: usize, new: usize, mode: TermMode)
    ensures
        ({
            let icon = crate::input::icon_after_message(current, new, mode);
            &&& current < new ==> icon == CursorIcon::Default
            &&& current == new ==> icon == CursorIcon::Hand
            &&& current > new && mode.mouse_mode && !mode.vi ==> icon == CursorIcon::Default
            &&& current > new && !(mode.mouse_mode && !mode.vi) ==> icon == CursorIcon::Text
        }),
{
}

/// Recorded settings hold the number of lines of history in decimal, under its name and in braces.
pub proof fn law_recorded_settings(size: nat)
    ensures
        ({
            let text = crate::handler::recorded_config(size);
            let n = text.len() as int;
            &&& n == 17 + crate::text::decimal(size).len()
            &&& text.take(16) == seq![
                '{', '"', 'h', 'i', 's', 't', 'o', 'r', 'y', '_', 's', 'i', 'z', 'e', '"', ':',
            ]
            &&& text.subrange(16, n - 1) == crate::text::decimal(size)
            &&& text[n - 1] == '}'
        }),
{
    reveal_strlit("{\"history_size\":");
    reveal_strlit("}");
    let text = crate::handler::recorded_config(size);
    assert(text.take(16) =~= seq![
        '{', '"', 'h', 'i', 's', 't', 'o', 'r', 'y', '_', 's', 'i', 'z', 'e', '"', ':',
    ]);
    assert(text.subrange(16, text.len() - 1) =~= crate::text::decimal(size));
}

} // verus!
