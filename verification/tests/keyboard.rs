use tabterm::bindings::{Action, Binding, BindingMode, Key, SearchAction, ViAction};
use tabterm::config::Config;
use tabterm::context::ActionContext;
use tabterm::effect::{BindingKind, Effect, Step};
use tabterm::event;
use tabterm::index::{Column, Direction, Line, Point};
use tabterm::input::Processor;
use tabterm::keys::paste;
use tabterm::term::{
    ClipboardType, Command, ElementState, HostView, KeyboardInput, ModifiersState, MouseButton,
    Platform, Scroll, SelectionType, SelectionView, SizeInfo, TermMode, TermView, ViMotion,
};
use tabterm::word::Url;

fn config() -> Config {
    Config {
        double_click_threshold: 300_000_000,
        triple_click_threshold: 300_000_000,
        hide_when_typing: true,
        save_to_clipboard: false,
        alt_send_esc: true,
        dynamic_title: true,
        title: "term".to_string(),
        font_size: 22,
        use_thin_strokes: true,
        blink_interval: 750,
        cursor_blinking: None,
        vi_cursor_blinking: None,
        url_launcher: None,
        bell_command: None,
        key_bindings: Vec::new(),
        mouse_bindings: Vec::new(),
    }
}

fn term() -> TermView {
    TermView {
        mode: TermMode::empty(),
        screen_lines: 25,
        cols: 80,
        history_size: 100,
        total_lines: 125,
        display_offset: 0,
        vi_cursor: Point::new(Line(4), Column(7)),
        selection: None,
        is_focused: true,
    }
}

fn host() -> HostView {
    HostView {
        platform: Platform::X11,
        size: SizeInfo {
            width: 800,
            height: 600,
            cell_width: 10,
            half_cell_width: 5,
            cell_height: 20,
            padding_x: 0,
            padding_y: 0,
            grid_end: 800,
            text_area_bottom: 600,
            screen_lines: 25,
            cols: 80,
        },
        tab_len: 1,
        message_lines: None,
        close_button_width: 3,
        blink_scheduled: true,
        delayed_search_scheduled: false,
        selection_scroll_scheduled: false,
    }
}

fn processor() -> Processor {
    event::Processor::new(config(), 0).input
}

fn show(effects: &Vec<Effect>) -> String {
    format!("{:?}", effects)
}

fn steps(list: Vec<Step>) -> String {
    let effects: Vec<Effect> = list.into_iter().map(Effect::Do).collect();
    show(&effects)
}

fn key(scancode: u32, state: ElementState, keycode: Option<u32>) -> KeyboardInput {
    KeyboardInput { scancode, state, virtual_keycode: keycode }
}

fn on_key(trigger: Key, action: Action) -> Binding<Key> {
    Binding {
        trigger,
        mods: ModifiersState::empty(),
        action,
        mode: BindingMode::empty(),
        notmode: BindingMode::empty(),
    }
}

#[test]
fn pressed_key_runs_its_bindings() {
    let mut processor = processor();
    processor.ctx.received_count = 4;
    let input = key(30, ElementState::Pressed, Some(10));
    processor.ctx.config.key_bindings =
        vec![on_key(Key::Keycode(11), Action::Copy), on_key(Key::Scancode(30), Action::Paste)];
    let mode = TermMode::empty();
    let effects = processor.key_input(input, &mode, &host());
    assert_eq!(show(&effects), steps(vec![Step::RunBinding(BindingKind::Key, 1)]));
    assert_eq!(processor.ctx.received_count, 0);
    assert!(processor.ctx.suppress_chars);

    let effects = processor.key_input(key(30, ElementState::Released, Some(10)), &mode, &host());
    assert_eq!(show(&effects), steps(vec![]));
    assert!(!processor.ctx.suppress_chars);
}

#[test]
fn typing_postpones_the_delayed_search() {
    let mut processor = processor();
    processor.ctx.start_search(Direction::Right, &term());
    let host = HostView { delayed_search_scheduled: true, ..host() };
    let effects = processor.key_input(key(30, ElementState::Released, None), &TermMode::empty(), &host);
    assert_eq!(show(&effects), steps(vec![Step::PostponeDelayedSearch]));
}

#[test]
fn bindings_are_found_in_order() {
    let mut processor = processor();
    processor.ctx.config.key_bindings = vec![
        on_key(Key::Keycode(10), Action::Copy),
        on_key(Key::Keycode(11), Action::Quit),
        on_key(Key::Scancode(30), Action::Paste),
        on_key(Key::Keycode(10), Action::Hide),
    ];
    let input = key(30, ElementState::Pressed, Some(10));
    assert_eq!(processor.process_key_bindings(input, &TermMode::empty()), vec![0, 2, 3]);
    assert!(processor.ctx.suppress_chars);
    // A key without a meaning is known by its place alone.
    let input = key(30, ElementState::Pressed, None);
    assert_eq!(processor.process_key_bindings(input, &TermMode::empty()), vec![2]);
    let input = key(31, ElementState::Pressed, None);
    assert_eq!(processor.process_key_bindings(input, &TermMode::empty()), Vec::<usize>::new());
    assert!(!processor.ctx.suppress_chars);
}

#[test]
fn receive_char_lets_the_key_pass() {
    let mut processor = processor();
    processor.ctx.config.key_bindings = vec![
        on_key(Key::Keycode(10), Action::ReceiveChar),
        on_key(Key::Keycode(10), Action::Copy),
    ];
    let input = key(30, ElementState::Pressed, Some(10));
    assert_eq!(processor.process_key_bindings(input, &TermMode::empty()), vec![0, 1]);
    assert!(!processor.ctx.suppress_chars);
}

#[test]
fn mouse_bindings_require_shift_in_mouse_mode() {
    let mut processor = processor();
    processor.ctx.config.mouse_bindings = vec![Binding {
        trigger: MouseButton::Middle,
        mods: ModifiersState::empty(),
        action: Action::PasteSelection,
        mode: BindingMode::empty(),
        notmode: BindingMode::empty(),
    }];
    let mut mode = TermMode::empty();
    let none: Vec<usize> = Vec::new();
    assert_eq!(processor.process_mouse_bindings(MouseButton::Middle, &mode), vec![0]);
    assert_eq!(processor.process_mouse_bindings(MouseButton::Left, &mode), none);
    mode.mouse_mode = true;
    assert_eq!(processor.process_mouse_bindings(MouseButton::Middle, &mode), none);
    processor.ctx.modifiers.shift = true;
    assert_eq!(processor.process_mouse_bindings(MouseButton::Middle, &mode), vec![0]);
}

#[test]
fn characters_are_written() {
    let mut processor = processor();
    processor.ctx.cursor_hidden = true;
    let effects = processor.received_char('é', &TermMode::empty(), &host());
    assert_eq!(
        show(&effects),
        show(&vec![
            Effect::Do(Step::PostponeBlink(750)),
            Effect::Do(Step::MarkDirty),
            Effect::Do(Step::SetMouseVisible(false)),
            Effect::Do(Step::Scroll(Scroll::Bottom)),
            Effect::Do(Step::DropSelection),
            Effect::Do(Step::MarkDirty),
            Effect::WriteToPty(vec![0xc3, 0xa9]),
        ])
    );
    assert!(!processor.ctx.cursor_hidden);
    assert_eq!(processor.ctx.received_count, 1);
}

fn written(effects: &Vec<Effect>) -> Vec<Vec<u8>> {
    let mut all = Vec::new();
    for effect in effects {
        if let Effect::WriteToPty(bytes) = effect {
            all.push(bytes.clone());
        }
    }
    all
}

#[test]
fn alt_sends_an_escape_before_the_first_ascii_character() {
    let mut processor = processor();
    processor.ctx.modifiers.alt = true;
    let mode = TermMode::empty();
    assert_eq!(written(&processor.received_char('x', &mode, &host())), vec![b"\x1bx".to_vec()]);
    assert_eq!(written(&processor.received_char('x', &mode, &host())), vec![b"x".to_vec()]);
    processor.ctx.received_count = 0;
    assert_eq!(
        written(&processor.received_char('é', &mode, &host())),
        vec!["é".as_bytes().to_vec()]
    );
    processor.ctx.received_count = 0;
    processor.ctx.config.alt_send_esc = false;
    assert_eq!(written(&processor.received_char('x', &mode, &host())), vec![b"x".to_vec()]);
}

#[test]
fn characters_are_held_back() {
    let mut processor = processor();
    let mut mode = TermMode::empty();
    mode.vi = true;
    assert_eq!(show(&processor.received_char('x', &mode, &host())), steps(vec![]));
    mode.vi = false;
    processor.ctx.start_search(Direction::Right, &term());
    assert_eq!(
        show(&processor.received_char('x', &mode, &host())),
        steps(vec![Step::SearchInput('x')])
    );
    processor.ctx.suppress_chars = true;
    assert_eq!(show(&processor.received_char('x', &mode, &host())), steps(vec![]));
    assert_eq!(processor.ctx.received_count, 0);
}

#[test]
fn pasted_text_is_searched_bracketed_or_typed() {
    assert_eq!(
        show(&paste("ab", true, true)),
        steps(vec![Step::SearchInput('a'), Step::SearchInput('b')])
    );
    assert_eq!(
        written(&paste("a\x1b[201~b\n", false, true)),
        vec![b"\x1b[200~".to_vec(), b"a[201~b\n".to_vec(), b"\x1b[201~".to_vec()]
    );
    assert_eq!(
        written(&paste("a\r\nb\nc\r\r\n\n", false, false)),
        vec![b"a\rb\rc\r\r\r".to_vec()]
    );
}

fn run(action: Action, ctx: &mut ActionContext, term: &TermView, host: &HostView) -> String {
    show(&action.execute(ctx, term, host, None))
}

#[test]
fn tab_actions_redraw() {
    let mut ctx = processor().ctx;
    assert_eq!(
        run(Action::NewTab, &mut ctx, &term(), &host()),
        steps(vec![Step::NewTab, Step::MarkDirty])
    );
    assert_eq!(
        run(Action::PreviousTab, &mut ctx, &term(), &host()),
        steps(vec![Step::PreviousTab, Step::MarkDirty])
    );
    assert_eq!(
        run(Action::NextTab, &mut ctx, &term(), &host()),
        steps(vec![Step::NextTab, Step::MarkDirty])
    );
}

#[test]
fn escape_sequence_is_written() {
    let mut ctx = processor().ctx;
    ctx.cursor_hidden = true;
    let host = HostView { blink_scheduled: false, ..host() };
    assert_eq!(
        run(Action::Esc("\x1b[1;2D".to_string()), &mut ctx, &term(), &host),
        show(&vec![
            Effect::Do(Step::SetMouseVisible(false)),
            Effect::Do(Step::DropSelection),
            Effect::Do(Step::MarkDirty),
            Effect::Do(Step::Scroll(Scroll::Bottom)),
            Effect::Do(Step::MarkDirty),
            Effect::WriteToPty(b"\x1b[1;2D".to_vec()),
        ])
    );
    assert!(ctx.cursor_hidden);
}

#[test]
fn command_is_started() {
    let mut ctx = processor().ctx;
    let command = || Command { program: "ls".to_string(), args: vec!["-l".to_string()] };
    assert_eq!(
        run(Action::Command(command()), &mut ctx, &term(), &host()),
        show(&vec![Effect::StartDaemon(command())])
    );
}

#[test]
fn vi_selection_is_toggled() {
    let mut ctx = processor().ctx;
    let mut view = term();
    let lines = || Action::ViAction(ViAction::ToggleLineSelection);
    assert_eq!(
        run(lines(), &mut ctx, &view, &host()),
        steps(vec![
            Step::StartSelection(SelectionType::Lines, view.vi_cursor, Direction::Left),
            Step::MarkDirty,
            Step::IncludeAll,
        ])
    );
    view.selection = Some(SelectionView { ty: SelectionType::Simple, is_empty: false });
    assert_eq!(
        run(lines(), &mut ctx, &view, &host()),
        steps(vec![
            Step::SetSelectionType(SelectionType::Lines),
            Step::MarkDirty,
            Step::IncludeAll,
        ])
    );
    view.selection = Some(SelectionView { ty: SelectionType::Lines, is_empty: false });
    assert_eq!(
        run(lines(), &mut ctx, &view, &host()),
        steps(vec![Step::DropSelection, Step::MarkDirty])
    );
}

#[test]
fn vi_searches_go_one_cell_further() {
    let mut ctx = processor().ctx;
    ctx.start_search(Direction::Left, &term());
    let search = |direction: Direction, side: Direction, to_end: bool| {
        steps(vec![Step::ViSearch { direction, side, to_end }])
    };
    assert_eq!(
        run(Action::ViAction(ViAction::SearchNext), &mut ctx, &term(), &host()),
        search(Direction::Left, Direction::Left, false)
    );
    assert_eq!(
        run(Action::ViAction(ViAction::SearchPrevious), &mut ctx, &term(), &host()),
        search(Direction::Right, Direction::Left, false)
    );
    assert_eq!(
        run(Action::ViAction(ViAction::SearchStart), &mut ctx, &term(), &host()),
        search(Direction::Left, Direction::Left, false)
    );
    assert_eq!(
        run(Action::ViAction(ViAction::SearchEnd), &mut ctx, &term(), &host()),
        search(Direction::Right, Direction::Right, true)
    );
}

#[test]
fn vi_open_launches_the_address_at_the_cursor() {
    let mut ctx = processor().ctx;
    ctx.mouse.block_url_launcher = true;
    let url = Url { start: term().vi_cursor, end: Point::new(Line(4), Column(20)) };
    let open = Action::ViAction(ViAction::Open);
    let effects = open.execute(&mut ctx, &term(), &host(), Some(url));
    assert_eq!(show(&effects), steps(vec![Step::LaunchUrl(url)]));
    assert!(!ctx.mouse.block_url_launcher);
}

#[test]
fn search_actions_follow_the_direction() {
    let mut ctx = processor().ctx;
    ctx.start_search(Direction::Left, &term());
    let mut search = |action: SearchAction| {
        run(Action::SearchAction(action), &mut ctx, &term(), &host())
    };
    assert_eq!(
        search(SearchAction::SearchFocusNext),
        steps(vec![Step::AdvanceSearch(Direction::Left)])
    );
    assert_eq!(
        search(SearchAction::SearchFocusPrevious),
        steps(vec![Step::AdvanceSearch(Direction::Right)])
    );
    assert_eq!(
        search(SearchAction::SearchClear),
        steps(vec![Step::CancelSearch, Step::StartSearch(Direction::Left)])
    );
    assert_eq!(search(SearchAction::SearchConfirm), steps(vec![Step::ConfirmSearch]));
    assert_eq!(search(SearchAction::SearchDeleteWord), steps(vec![Step::SearchPopWord]));
}

#[test]
fn scrolls_take_the_vi_cursor_along() {
    let mut ctx = processor().ctx;
    let mut view = term();
    assert_eq!(
        run(Action::ScrollPageUp, &mut ctx, &view, &host()),
        steps(vec![Step::ScrollViCursor(25), Step::Scroll(Scroll::PageUp)])
    );
    assert_eq!(
        run(Action::ScrollHalfPageDown, &mut ctx, &view, &host()),
        steps(vec![Step::ScrollViCursor(-12), Step::Scroll(Scroll::Delta(-12))])
    );
    assert_eq!(
        run(Action::ScrollLineUp, &mut ctx, &view, &host()),
        steps(vec![Step::SetViLine(Line(5)), Step::Scroll(Scroll::Delta(1))])
    );
    assert_eq!(
        run(Action::ScrollLineDown, &mut ctx, &view, &host()),
        steps(vec![Step::Scroll(Scroll::Delta(-1))])
    );
    view.display_offset = 100;
    assert_eq!(
        run(Action::ScrollLineUp, &mut ctx, &view, &host()),
        steps(vec![Step::Scroll(Scroll::Delta(1))])
    );
    assert_eq!(
        run(Action::ScrollLineDown, &mut ctx, &view, &host()),
        steps(vec![Step::SetViLine(Line(3)), Step::Scroll(Scroll::Delta(-1))])
    );
    assert_eq!(
        run(Action::ScrollToBottom, &mut ctx, &view, &host()),
        steps(vec![
            Step::Scroll(Scroll::Bottom),
            Step::SetViLine(Line(24)),
            Step::ViMotion(ViMotion::FirstOccupied),
            Step::ViMotion(ViMotion::FirstOccupied),
        ])
    );
}

#[test]
fn font_size_changes_by_half_points() {
    let mut ctx = processor().ctx;
    assert_eq!(
        run(Action::IncreaseFontSize, &mut ctx, &term(), &host()),
        steps(vec![Step::SetFont(23), Step::MarkDirty])
    );
    ctx.font_size = 1;
    assert_eq!(
        run(Action::DecreaseFontSize, &mut ctx, &term(), &host()),
        steps(vec![Step::SetFont(1), Step::MarkDirty])
    );
    assert_eq!(
        run(Action::ResetFontSize, &mut ctx, &term(), &host()),
        steps(vec![Step::SetFont(22), Step::MarkDirty])
    );
    assert_eq!(ctx.font_size, 22);
    ctx.font_size = i16::MAX;
    run(Action::IncreaseFontSize, &mut ctx, &term(), &host());
    assert_eq!(ctx.font_size, i16::MAX);
}

#[test]
fn notices_are_cleared_where_there_are_any() {
    let mut ctx = processor().ctx;
    assert_eq!(run(Action::ClearLogNotice, &mut ctx, &term(), &host()), steps(vec![]));
    assert!(!ctx.display_update_pending);
    let host = HostView { message_lines: Some(1), ..host() };
    assert_eq!(
        run(Action::ClearLogNotice, &mut ctx, &term(), &host),
        steps(vec![Step::PopMessage])
    );
    assert!(ctx.display_update_pending);
}

#[test]
fn macos_hides_the_application() {
    let mut ctx = processor().ctx;
    let host = HostView { platform: Platform::MacOs, ..host() };
    assert_eq!(
        run(Action::Hide, &mut ctx, &term(), &host),
        steps(vec![Step::HideApplication])
    );
}

#[test]
fn simple_actions_are_handed_on() {
    let mut ctx = processor().ctx;
    let mut plain = |action: Action| run(action, &mut ctx, &term(), &host());
    assert_eq!(plain(Action::Copy), steps(vec![Step::CopySelection(ClipboardType::Clipboard)]));
    assert_eq!(plain(Action::Paste), steps(vec![Step::Paste(ClipboardType::Clipboard)]));
    assert_eq!(plain(Action::PasteSelection), steps(vec![Step::Paste(ClipboardType::Selection)]));
    assert_eq!(plain(Action::Hide), steps(vec![Step::HideWindow]));
    assert_eq!(plain(Action::ToggleSimpleFullscreen), steps(vec![Step::ToggleSimpleFullscreen]));
    assert_eq!(plain(Action::Quit), steps(vec![Step::ExitTerminal]));
    assert_eq!(plain(Action::SearchForward), steps(vec![Step::StartSearch(Direction::Right)]));
    assert_eq!(plain(Action::ReceiveChar), steps(vec![]));
    assert_eq!(plain(Action::Nothing), steps(vec![]));
}
