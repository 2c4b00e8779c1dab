use tabterm::config::Config;
use tabterm::context::ActionContext;
use tabterm::effect::{Effect, Step, TimerId};
use tabterm::event::{
    skip_event, ConfigChanges, ControlFlow, Event, Finish, HostEvent, Processor, TerminalEvent,
    Turn, WindowEvent,
};
use tabterm::handler::ref_test_config;
use tabterm::index::{BufferPoint, BufferRange, Column, Direction, Line, Point};
use tabterm::term::{
    ClipboardType, Command, ElementState, HostView, KeyboardInput, MouseButton, Platform, Scroll,
    SelectionType, SelectionView, SizeInfo, TermMode, TermView,
};
use tabterm::word::Url;

fn config() -> Config {
    Config {
        double_click_threshold: 300_000_000,
        triple_click_threshold: 300_000_000,
        hide_when_typing: false,
        save_to_clipboard: false,
        alt_send_esc: true,
        dynamic_title: true,
        title: "term".to_string(),
        font_size: 22,
        use_thin_strokes: true,
        blink_interval: 750,
        cursor_blinking: None,
        vi_cursor_blinking: None,
        url_launcher: None,
        bell_command: None,
        key_bindings: Vec::new(),
        mouse_bindings: Vec::new(),
    }
}

fn term() -> TermView {
    TermView {
        mode: TermMode::empty(),
        screen_lines: 25,
        cols: 80,
        history_size: 100,
        total_lines: 125,
        display_offset: 0,
        vi_cursor: Point::new(Line(4), Column(7)),
        selection: None,
        is_focused: true,
    }
}

fn host() -> HostView {
    HostView {
        platform: Platform::X11,
        size: SizeInfo {
            width: 800,
            height: 600,
            cell_width: 10,
            half_cell_width: 5,
            cell_height: 20,
            padding_x: 0,
            padding_y: 0,
            grid_end: 800,
            text_area_bottom: 600,
            screen_lines: 25,
            cols: 80,
        },
        tab_len: 1,
        message_lines: None,
        close_button_width: 3,
        blink_scheduled: false,
        delayed_search_scheduled: false,
        selection_scroll_scheduled: false,
    }
}

fn show(effects: &Vec<Effect>) -> String {
    format!("{:?}", effects)
}

fn steps(list: Vec<Step>) -> String {
    let effects: Vec<Effect> = list.into_iter().map(Effect::Do).collect();
    show(&effects)
}

fn input(is_synthetic: bool) -> WindowEvent {
    WindowEvent::KeyboardInput {
        input: KeyboardInput {
            scancode: 30,
            state: ElementState::Pressed,
            virtual_keycode: Some(10),
        },
        is_synthetic,
    }
}

#[test]
fn irrelevant_events_are_skipped() {
    let mut processor = Processor::new(config(), 0);
    for event in vec![
        HostEvent::WindowEvent(input(true)),
        HostEvent::WindowEvent(WindowEvent::Moved),
        HostEvent::NewEvents,
        HostEvent::MainEventsCleared,
    ] {
        assert!(skip_event(&event));
        assert_eq!(processor.run(event), Turn::Skip);
    }
    assert!(!skip_event(&HostEvent::WindowEvent(input(false))));
    assert!(!skip_event(&HostEvent::WindowEvent(WindowEvent::ThemeChanged)));
    assert!(!skip_event(&HostEvent::Resumed));
    assert_eq!(processor.event_queue.len(), 0);
    let effects =
        processor.input.handle_event(HostEvent::WindowEvent(input(true)), &term(), &host());
    assert_eq!(show(&effects), steps(vec![]));
}

#[test]
fn events_wait_in_the_queue() {
    let mut processor = Processor::new(config(), 0);
    processor.start(true);
    assert_eq!(processor.run(HostEvent::RedrawRequested), Turn::Poll);
    let changed = WindowEvent::ScaleFactorChanged { scale_factor: 7, width: 300, height: 200 };
    assert_eq!(processor.run(HostEvent::WindowEvent(changed)), Turn::Poll);
    assert_eq!(processor.run(HostEvent::RedrawEventsCleared), Turn::UpdateTimers);
    let exit = Event::TerminalEvent(TerminalEvent::Exit);
    assert_eq!(processor.run(HostEvent::UserEvent(exit)), Turn::Exit);
    assert_eq!(processor.run(HostEvent::UserEvent(Event::TestEvent)), Turn::Process);

    let due = vec![HostEvent::UserEvent(Event::BlinkCursor)];
    assert_eq!(processor.update_timers(due, Some(90), 0), (ControlFlow::WaitUntil(90), true));
    let (events, searching) = processor.take_events(None);
    assert!(!searching);
    let expected = vec![
        HostEvent::UserEvent(Event::TerminalEvent(TerminalEvent::CursorBlinkingChange(true))),
        HostEvent::RedrawRequested,
        HostEvent::UserEvent(Event::DPRChanged(7, (300, 200))),
        HostEvent::UserEvent(Event::BlinkCursor),
    ];
    assert_eq!(format!("{:?}", events), format!("{:?}", expected));
    assert!(processor.event_queue_empty());
    assert_eq!(processor.update_timers(Vec::new(), None, 0), (ControlFlow::Wait, false));
    assert_eq!(processor.update_timers(Vec::new(), None, 1), (ControlFlow::Wait, true));
}

#[test]
fn drawing_waits_for_the_compositor() {
    let mut processor = Processor::new(config(), 0);
    let finish = processor.finish(false, Platform::Wayland, false, true, false);
    assert_eq!(finish, Finish { update_display: false, draw: false, poll: false });
    assert_eq!(processor.event_queue.len(), 0);
    let finish = processor.finish(true, Platform::Wayland, true, true, false);
    assert_eq!(finish, Finish { update_display: true, draw: true, poll: true });
    assert_eq!(
        format!("{:?}", processor.event_queue),
        format!("{:?}", vec![HostEvent::from(Event::from(TerminalEvent::Wakeup))])
    );
    let finish = processor.finish(false, Platform::X11, false, false, false);
    assert_eq!(finish, Finish { update_display: false, draw: false, poll: false });
    let finish = processor.finish(false, Platform::MacOs, false, true, true);
    assert_eq!(finish, Finish { update_display: false, draw: true, poll: false });
}

#[test]
fn user_events_are_handled() {
    let mut processor = Processor::new(config(), 0).input;
    let mut handle = |event: Event| {
        show(&processor.handle_event(HostEvent::UserEvent(event), &term(), &host()))
    };
    assert_eq!(
        handle(Event::DPRChanged(9, (30, 20))),
        steps(vec![
            Step::SetFont(22),
            Step::SetDimensions(30, 20),
            Step::SetScaleFactor(9),
            Step::MarkDirty,
        ])
    );
    assert_eq!(handle(Event::Message(3)), steps(vec![Step::PushMessage(3), Step::MarkDirty]));
    assert_eq!(handle(Event::SearchNext), steps(vec![Step::GotoMatch(None)]));
    assert_eq!(
        handle(Event::ConfigReload("a.yml".to_string())),
        show(&vec![Effect::ReloadConfig("a.yml".to_string())])
    );
    assert_eq!(handle(Event::BlinkCursor), steps(vec![Step::MarkDirty]));
    assert_eq!(handle(Event::TestEvent), steps(vec![]));
    assert!(processor.ctx.display_update_pending);
    assert!(processor.ctx.cursor_hidden);
    processor.handle_event(HostEvent::UserEvent(Event::BlinkCursor), &term(), &host());
    assert!(!processor.ctx.cursor_hidden);

    let host = HostView { message_lines: Some(1), ..host() };
    processor.ctx.display_update_pending = false;
    let reload = HostEvent::UserEvent(Event::ConfigReload("a.yml".to_string()));
    assert_eq!(
        show(&processor.handle_event(reload, &term(), &host)),
        show(&vec![
            Effect::Do(Step::RemoveConfigMessages),
            Effect::ReloadConfig("a.yml".to_string()),
        ])
    );
    assert!(processor.ctx.display_update_pending);
}

#[test]
fn terminal_events_are_handled() {
    let mut view = term();
    let mut processor = Processor::new(config(), 0).input;
    let event = |event: TerminalEvent| HostEvent::from(Event::from(event));
    let title = || event(TerminalEvent::Title("vim".to_string()));
    assert_eq!(
        show(&processor.handle_event(title(), &view, &host())),
        show(&vec![Effect::SetTitle("vim".to_string())])
    );
    assert_eq!(
        show(&processor.handle_event(event(TerminalEvent::ResetTitle), &view, &host())),
        show(&vec![Effect::SetTitle("term".to_string())])
    );
    processor.ctx.config.dynamic_title = false;
    assert_eq!(show(&processor.handle_event(title(), &view, &host())), steps(vec![]));
    assert_eq!(
        show(&processor.handle_event(event(TerminalEvent::Close(3)), &view, &host())),
        steps(vec![Step::RemoveSelectedTab])
    );
    assert_eq!(
        show(&processor.handle_event(
            event(TerminalEvent::ClipboardStore(ClipboardType::Selection, "x".to_string())),
            &view,
            &host()
        )),
        show(&vec![Effect::StoreClipboard(ClipboardType::Selection, "x".to_string())])
    );
    assert_eq!(
        show(&processor.handle_event(
            event(TerminalEvent::ClipboardLoad(ClipboardType::Clipboard, 4)),
            &view,
            &host()
        )),
        steps(vec![Step::AnswerClipboard(ClipboardType::Clipboard, 4)])
    );
    let command = || Command { program: "bell".to_string(), args: Vec::new() };
    processor.ctx.config.bell_command = Some(command());
    view.mode.urgency_hints = true;
    view.is_focused = false;
    assert_eq!(
        show(&processor.handle_event(event(TerminalEvent::Bell), &view, &host())),
        show(&vec![Effect::StartDaemon(command()), Effect::Do(Step::SetUrgent(true))])
    );
}

#[test]
fn window_events_are_handled() {
    let mut processor = Processor::new(config(), 0).input;
    let mut handle = |event: WindowEvent| {
        show(&processor.handle_event(HostEvent::WindowEvent(event), &term(), &host()))
    };
    assert_eq!(handle(WindowEvent::CloseRequested), steps(vec![Step::ExitTerminal]));
    assert_eq!(
        handle(WindowEvent::Resized(3, 4)),
        steps(vec![Step::SetDimensions(3, 4), Step::MarkDirty])
    );
    assert_eq!(
        handle(WindowEvent::MouseInput {
            state: ElementState::Pressed,
            button: MouseButton::Left
        }),
        steps(vec![
            Step::SetMouseVisible(true),
            Step::MousePress(MouseButton::Left),
            Step::MarkDirty,
        ])
    );
    assert_eq!(
        handle(WindowEvent::Focused { is_focused: false, own_window: true }),
        steps(vec![
            Step::SetFocused(false),
            Step::MarkDirty,
            Step::SetMouseVisible(true),
            Step::UpdateCursorBlinking,
        ])
    );
    assert_eq!(
        handle(WindowEvent::Focused { is_focused: true, own_window: false }),
        steps(vec![])
    );
    assert_eq!(
        handle(WindowEvent::DroppedFile("/tmp/a b".to_string())),
        show(&vec![Effect::WriteToPty(b"/tmp/a b ".to_vec())])
    );
    assert_eq!(handle(WindowEvent::CursorLeft), steps(vec![]));
    let point = Point::new(Line(1), Column(1));
    processor.highlighted_url = Some(Url { start: point, end: point });
    processor.ctx.mouse.inside_text_area = true;
    let left = HostEvent::WindowEvent(WindowEvent::CursorLeft);
    assert_eq!(
        show(&processor.handle_event(left, &term(), &host())),
        steps(vec![Step::MarkDirty])
    );
    assert!(!processor.ctx.mouse.inside_text_area);
}

#[test]
fn input_events_lead_to_what_they_type() {
    let mut view = term();
    let mut processor = Processor::new(config(), 0).input;
    let event = |event: WindowEvent| HostEvent::WindowEvent(event);
    processor.ctx.modifiers.alt = true;
    assert_eq!(
        show(&processor.handle_event(event(input(false)), &view, &host())),
        steps(vec![])
    );
    assert_eq!(
        show(&processor.handle_event(event(WindowEvent::ReceivedCharacter('q')), &view, &host())),
        show(&vec![
            Effect::Do(Step::Scroll(Scroll::Bottom)),
            Effect::Do(Step::DropSelection),
            Effect::Do(Step::MarkDirty),
            Effect::WriteToPty(b"\x1bq".to_vec()),
        ])
    );
    assert_eq!(processor.ctx.received_count, 1);

    view.mode.focus_in_out = true;
    let focused = WindowEvent::Focused { is_focused: true, own_window: true };
    assert_eq!(
        show(&processor.handle_event(event(focused), &view, &host())),
        show(&vec![
            Effect::Do(Step::SetFocused(true)),
            Effect::Do(Step::MarkDirty),
            Effect::Do(Step::SetUrgent(false)),
            Effect::Do(Step::UpdateCursorBlinking),
            Effect::WriteToPty(b"\x1b[I".to_vec()),
        ])
    );

    processor.ctx.mouse.column = Column(2);
    let press =
        WindowEvent::MouseInput { state: ElementState::Pressed, button: MouseButton::Right };
    assert_eq!(
        show(&processor.handle_event(event(press), &view, &host())),
        steps(vec![Step::SetMouseVisible(true), Step::SelectTab(0), Step::MarkDirty])
    );
    assert_eq!(processor.ctx.mouse.right_button_state, ElementState::Pressed);
}

#[test]
fn reload_keeps_a_font_size_changed_at_runtime() {
    let mut processor = Processor::new(config(), 0).input;
    let changes = ConfigChanges { cursor_thickness: true, font: true, padding: true };
    let effects = processor.reload_config(Config { font_size: 30, ..config() }, changes, Platform::X11);
    assert_eq!(
        show(&effects),
        steps(vec![
            Step::UpdateTerminalConfig,
            Step::SetCursorDirty,
            Step::SetFont(30),
            Step::UpdateCursorBlinking,
            Step::MarkDirty,
        ])
    );
    assert_eq!(processor.ctx.font_size, 30);
    assert!(processor.ctx.display_update_pending);

    processor.ctx.font_size = 31;
    let none = ConfigChanges { cursor_thickness: false, font: true, padding: false };
    let renamed = Config { font_size: 20, title: "other".to_string(), ..config() };
    let effects = processor.reload_config(renamed, none, Platform::X11);
    assert_eq!(
        show(&effects),
        show(&vec![
            Effect::Do(Step::UpdateTerminalConfig),
            Effect::Do(Step::SetFont(31)),
            Effect::SetTitle("other".to_string()),
            Effect::Do(Step::UpdateCursorBlinking),
            Effect::Do(Step::MarkDirty),
        ])
    );
    assert_eq!(processor.ctx.font_size, 31);
}

#[test]
fn reload_reaches_the_window_system() {
    let mut processor = Processor::new(config(), 0).input;
    let none = || ConfigChanges { cursor_thickness: false, font: false, padding: false };
    let around = |step: Step| {
        steps(vec![
            Step::UpdateTerminalConfig,
            step,
            Step::UpdateCursorBlinking,
            Step::MarkDirty,
        ])
    };
    assert_eq!(
        show(&processor.reload_config(config(), none(), Platform::Wayland)),
        around(Step::UpdateWindowTheme)
    );
    assert_eq!(
        show(&processor.reload_config(config(), none(), Platform::MacOs)),
        around(Step::SetFontSmoothing(true))
    );
}

#[test]
fn minimized_window_is_not_resized_on_windows() {
    let mut processor = Processor::new(config(), 0).input;
    let host = HostView { platform: Platform::Windows, ..host() };
    let resized = |width: u32| HostEvent::WindowEvent(WindowEvent::Resized(width, 0));
    assert_eq!(show(&processor.handle_event(resized(0), &term(), &host)), steps(vec![]));
    assert_eq!(
        show(&processor.handle_event(resized(1), &term(), &host)),
        steps(vec![Step::SetDimensions(1, 0), Step::MarkDirty])
    );
}

#[test]
fn vi_search_starts_beside_the_cursor() {
    assert!(ActionContext::vi_search_starts_before(Direction::Left));
    assert!(!ActionContext::vi_search_starts_before(Direction::Right));
    let found = BufferRange {
        start: BufferPoint { line: 3, col: Column(1) },
        end: BufferPoint { line: 2, col: Column(0) },
    };
    assert_eq!(ActionContext::vi_search_target(&found, false), found.start);
    assert_eq!(ActionContext::vi_search_target(&found, true), found.end);
}

#[test]
fn search_bar_moves_the_content() {
    let mut processor = Processor::new(config(), 0).input;
    processor.ctx.start_search(Direction::Right, &term());
    assert_eq!(processor.positions_at_bottom(&term(), 24), (true, false));
    assert_eq!(
        show(&processor.submit_display_update(false, 0, true, false)),
        steps(vec![Step::ScrollDisplay(Scroll::Delta(1))])
    );
    assert_eq!(show(&processor.submit_display_update(true, 0, true, false)), steps(vec![]));
    assert_eq!(
        show(&processor.submit_display_update(false, 5, false, true)),
        steps(vec![Step::ScrollDisplay(Scroll::Delta(-1))])
    );
    assert_eq!(show(&processor.submit_display_update(false, 5, true, false)), steps(vec![]));
    let mut view = term();
    view.mode.vi = true;
    view.vi_cursor.line = Line(24);
    assert_eq!(processor.positions_at_bottom(&view, 3), (false, true));
}

#[test]
fn recorded_settings_are_json() {
    assert_eq!(ref_test_config(0), "{\"history_size\":0}");
    assert_eq!(ref_test_config(10250), "{\"history_size\":10250}");
}

#[test]
fn search_is_typed_and_left() {
    let mut ctx = Processor::new(config(), 0).input.ctx;
    let view = term();
    assert_eq!(show(&ctx.start_search(Direction::Left, &view)), steps(vec![Step::MarkDirty]));
    assert!(ctx.search_active());
    assert_eq!(ctx.search_state.direction(), Direction::Left);
    let effects = ctx.push_search('a', &view);
    assert_eq!(
        show(&effects),
        show(&vec![
            Effect::Do(Step::DropSelection),
            Effect::StartTerminalSearch("a".to_string()),
            Effect::Do(Step::GotoMatch(Some(10000))),
            Effect::Do(Step::MarkDirty),
        ])
    );
    assert_eq!(ctx.search_state.regex(), Some(&"a".to_string()));
    let query = ctx.goto_match(Some(10000), &view).unwrap();
    assert_eq!(query.origin, Point::new(Line(23), Column(79)));
    assert_eq!(query.limit, None);
    assert_eq!(ctx.visible_origin(&view), query.origin);
    let query = ctx.goto_match(Some(100), &view).unwrap();
    assert_eq!(query.limit, Some(100));

    let found = BufferRange {
        start: BufferPoint { line: 40, col: Column(1) },
        end: BufferPoint { line: 40, col: Column(2) },
    };
    let effects = ctx.goto_match_found(found, 0, 30);
    assert_eq!(show(&effects), steps(vec![Step::Unschedule(TimerId::DelayedSearch)]));
    assert_eq!(ctx.search_state.focused_match(), Some(&found));
    assert_eq!(ctx.absolute_origin(BufferPoint { line: 50, col: Column(0) }).line, 20);
    // Taking the only character off starts again from the origin.
    let effects = ctx.pop_search(&view);
    assert_eq!(
        show(&effects),
        steps(vec![
            Step::ScrollDisplay(Scroll::Delta(-30)),
            Step::SetViCursor(Point::new(Line(23), Column(79))),
            Step::Unschedule(TimerId::DelayedSearch),
            Step::CancelTerminalSearch,
            Step::MarkDirty,
            Step::MarkDirty,
        ])
    );
    assert_eq!(ctx.search_state.focused_match(), None);
    ctx.display_update_pending = false;
    let effects = ctx.exit_search(&view);
    assert_eq!(
        show(&effects),
        steps(vec![Step::SetViCursor(Point::new(Line(5), Column(7))), Step::MarkDirty])
    );
    assert!(!ctx.search_active());
    assert!(ctx.display_update_pending);
    assert_eq!(show(&ctx.push_search('a', &view)), steps(vec![]));
}

#[test]
fn words_and_characters_are_taken_off_a_search() {
    let mut ctx = Processor::new(config(), 0).input.ctx;
    let view = term();
    ctx.start_search(Direction::Right, &view);
    for c in "one two\u{a0}three ".chars() {
        ctx.push_search(c, &view);
    }
    ctx.pop_word_search(&view);
    assert_eq!(ctx.search_state.regex(), Some(&"one ".to_string()));
    ctx.push_search('x', &view);
    ctx.pop_search(&view);
    assert_eq!(ctx.search_state.regex(), Some(&"one ".to_string()));
    ctx.pop_word_search(&view);
    assert_eq!(ctx.search_state.regex(), Some(&String::new()));
}

#[test]
fn missing_match_is_searched_later() {
    let mut ctx = Processor::new(config(), 0).input.ctx;
    let view = term();
    ctx.start_search(Direction::Right, &view);
    ctx.push_search('a', &view);
    assert_eq!(
        show(&ctx.goto_match_missing(Some(10000), false, &view)),
        steps(vec![Step::ScheduleDelayedSearch])
    );
    assert_eq!(show(&ctx.goto_match_missing(Some(10000), true, &view)), steps(vec![]));
    assert_eq!(
        show(&ctx.goto_match_missing(None, true, &view)),
        steps(vec![
            Step::ScrollDisplay(Scroll::Delta(0)),
            Step::SetViCursor(Point::new(Line(0), Column(0))),
            Step::Unschedule(TimerId::DelayedSearch),
        ])
    );
    assert_eq!(
        show(&ctx.confirm_search(true)),
        steps(vec![Step::GotoMatch(None), Step::ExitSearch])
    );
    assert_eq!(show(&ctx.confirm_search(false)), steps(vec![Step::ExitSearch]));
}

#[test]
fn cancelled_search_selects_the_match_in_focus() {
    let mut ctx = Processor::new(config(), 0).input.ctx;
    let mut view = term();
    ctx.start_search(Direction::Right, &view);
    assert_eq!(
        show(&ctx.cancel_search(&view)),
        steps(vec![Step::CancelTerminalSearch, Step::ExitSearch])
    );
    let at = BufferPoint { line: 3, col: Column(1) };
    let found = BufferRange { start: at, end: at };
    ctx.goto_match_found(found, 4, 4);
    assert_eq!(
        show(&ctx.cancel_search(&view)),
        steps(vec![Step::CancelTerminalSearch, Step::SelectMatch(found), Step::ExitSearch])
    );
    let point = Point::new(Line(21), Column(1));
    assert_eq!(
        show(&ctx.select_match(point, point, &view)),
        steps(vec![
            Step::StartSelection(SelectionType::Simple, point, Direction::Left),
            Step::MarkDirty,
            Step::ExtendSelection(point, Direction::Right),
            Step::MarkDirty,
        ])
    );
    view.mode.vi = true;
    assert_eq!(
        show(&ctx.cancel_search(&view)),
        steps(vec![
            Step::CancelTerminalSearch,
            Step::ScrollDisplay(Scroll::Delta(0)),
            Step::SetViCursor(Point::new(Line(0), Column(0))),
            Step::Unschedule(TimerId::DelayedSearch),
            Step::ExitSearch,
        ])
    );
}

#[test]
fn scroll_during_a_search_is_counted() {
    let mut ctx = Processor::new(config(), 0).input.ctx;
    let mut view = term();
    view.display_offset = 7;
    ctx.start_search(Direction::Right, &view);
    let point = Point::new(Line(30), Column(2));
    assert_eq!(show(&ctx.scroll(2, &view, point)), steps(vec![]));
    assert_eq!(ctx.search_state.display_offset_delta, -5);

    view.selection = Some(SelectionView { ty: SelectionType::Simple, is_empty: false });
    ctx.mouse.right_button_state = ElementState::Pressed;
    assert_eq!(
        show(&ctx.scroll(7, &view, point)),
        steps(vec![
            Step::ExtendSelection(Point::new(Line(24), Column(2)), Direction::Left),
            Step::MarkDirty,
        ])
    );
}

#[test]
fn cursor_blinks_as_set() {
    let mut ctx = Processor::new(config(), 0).input.ctx;
    ctx.cursor_hidden = true;
    let view = term();
    assert_eq!(
        show(&ctx.update_cursor_blinking(&view, true)),
        steps(vec![Step::Unschedule(TimerId::BlinkCursor), Step::ScheduleBlink(750)])
    );
    assert!(ctx.cursor_hidden);
    ctx.config.cursor_blinking = Some(false);
    assert_eq!(
        show(&ctx.update_cursor_blinking(&view, true)),
        steps(vec![Step::Unschedule(TimerId::BlinkCursor), Step::MarkDirty])
    );
    assert!(!ctx.cursor_hidden);
}

#[test]
fn address_is_opened_by_the_launcher() {
    let mut ctx = Processor::new(config(), 0).input.ctx;
    assert_eq!(show(&ctx.launch_url("http://a".to_string())), steps(vec![]));
    ctx.config.url_launcher =
        Some(Command { program: "open".to_string(), args: vec!["-n".to_string()] });
    let expected = Command {
        program: "open".to_string(),
        args: vec!["-n".to_string(), "http://a".to_string()],
    };
    assert_eq!(
        show(&ctx.launch_url("http://a".to_string())),
        show(&vec![Effect::StartDaemon(expected)])
    );
    ctx.mouse.block_url_launcher = true;
    assert_eq!(show(&ctx.launch_url("http://a".to_string())), steps(vec![]));
}
