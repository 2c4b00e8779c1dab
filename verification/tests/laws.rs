use tabterm::bindings::{Action, SearchAction, ViAction};
use tabterm::config::Config;
use tabterm::context::{ClickState, Mouse};
use tabterm::effect::{Effect, Step};
use tabterm::event;
use tabterm::index::{BufferPoint, BufferRange, Column, Direction, Line, Point};
use tabterm::input::Processor;
use tabterm::mouse::MouseMotion;
use tabterm::report::normal_mouse_report;
use tabterm::term::{
    HostView, ModifiersState, MouseButton, Platform, Scroll, SelectionType, SelectionView, SizeInfo,
    TermMode, TermView, ViMotion,
};

fn config() -> Config {
    Config {
        double_click_threshold: 300,
        triple_click_threshold: 300,
        hide_when_typing: false,
        save_to_clipboard: false,
        alt_send_esc: true,
        dynamic_title: true,
        title: "term".to_string(),
        font_size: 22,
        use_thin_strokes: true,
        blink_interval: 750,
        cursor_blinking: None,
        vi_cursor_blinking: None,
        url_launcher: None,
        bell_command: None,
        key_bindings: Vec::new(),
        mouse_bindings: Vec::new(),
    }
}

fn term() -> TermView {
    TermView {
        mode: TermMode::empty(),
        screen_lines: 25,
        cols: 80,
        history_size: 100,
        total_lines: 125,
        display_offset: 0,
        vi_cursor: Point::new(Line(4), Column(7)),
        selection: None,
        is_focused: true,
    }
}

fn host() -> HostView {
    HostView {
        platform: Platform::X11,
        size: SizeInfo {
            width: 800,
            height: 600,
            cell_width: 10,
            half_cell_width: 5,
            cell_height: 20,
            padding_x: 0,
            padding_y: 0,
            grid_end: 800,
            text_area_bottom: 600,
            screen_lines: 25,
            cols: 80,
        },
        tab_len: 1,
        message_lines: Some(1),
        close_button_width: 3,
        blink_scheduled: true,
        delayed_search_scheduled: false,
        selection_scroll_scheduled: false,
    }
}

fn processor() -> Processor {
    event::Processor::new(config(), 0).input
}

fn wrote(effects: &Vec<Effect>) -> bool {
    effects.iter().any(|effect| matches!(effect, Effect::WriteToPty(_)))
}

#[test]
fn actions_keep_the_input_state() {
    for action in vec![
        Action::Esc("x".to_string()),
        Action::ViMotion(ViMotion::FirstOccupied),
        Action::ViAction(ViAction::Open),
        Action::SearchAction(SearchAction::SearchClear),
        Action::IncreaseFontSize,
        Action::ClearLogNotice,
        Action::ScrollToTop,
        Action::Paste,
    ] {
        let mut ctx = processor().ctx;
        ctx.start_search(Direction::Left, &term());
        ctx.modifiers = ModifiersState { shift: true, ..ModifiersState::empty() };
        ctx.received_count = 3;
        ctx.suppress_chars = true;
        ctx.mouse.column = Column(5);
        action.execute(&mut ctx, &term(), &host(), None);
        assert!(ctx.search_active());
        assert!(ctx.modifiers.shift);
        assert_eq!(ctx.received_count, 3);
        assert!(ctx.suppress_chars);
        assert_eq!(ctx.mouse.column, Column(5));
        assert_eq!(ctx.mouse.click_state, ClickState::NoClick);
    }
}

#[test]
fn font_step_up_undoes_a_step_down() {
    let mut ctx = processor().ctx;
    Action::DecreaseFontSize.execute(&mut ctx, &term(), &host(), None);
    assert_eq!(ctx.font_size, 21);
    Action::IncreaseFontSize.execute(&mut ctx, &term(), &host(), None);
    assert_eq!(ctx.font_size, 22);
}

#[test]
fn fourth_click_is_a_single_one() {
    let mut processor = processor();
    let point = Point::new(Line(3), Column(3));
    let mut states = Vec::new();
    for now in 1..6 {
        processor.on_mouse_press(MouseButton::Left, now, point, &term());
        states.push(processor.ctx.mouse.click_state);
    }
    assert_eq!(
        states,
        vec![
            ClickState::Click,
            ClickState::DoubleClick,
            ClickState::TripleClick,
            ClickState::Click,
            ClickState::DoubleClick,
        ]
    );
}

#[test]
fn moved_mouse_opens_nothing() {
    let mut processor = processor();
    let motion = MouseMotion {
        x: 31,
        y: 50,
        inside_text_area: true,
        point: Point::new(Line(2), Column(3)),
        tab_bar_line: 3,
        url: None,
        min_scroll_height: 5,
        scroll_step: 20,
    };
    processor.mouse_moved(&motion, &term(), &host());
    assert!(processor.ctx.mouse.block_url_launcher);
    assert_eq!(processor.ctx.launch_url("http://a".to_string()).len(), 0);

    let selected = TermView {
        selection: Some(SelectionView { ty: SelectionType::Simple, is_empty: false }),
        ..term()
    };
    processor.ctx.mouse = Mouse::new(0);
    processor.on_mouse_press(MouseButton::Left, 1, motion.point, &selected);
    assert!(processor.ctx.mouse.block_url_launcher);
    processor.ctx.mouse = Mouse::new(0);
    processor.on_mouse_press(MouseButton::Left, 1, motion.point, &term());
    assert!(!processor.ctx.mouse.block_url_launcher);
}

#[test]
fn shift_keeps_the_mouse_from_programs() {
    let mut view = term();
    view.mode.mouse_mode = true;
    let mut processor = processor();
    let point = Point::new(Line(3), Column(3));
    assert!(wrote(&processor.on_mouse_press(MouseButton::Left, 1, point, &view)));
    processor.ctx.modifiers.shift = true;
    assert!(!wrote(&processor.on_mouse_press(MouseButton::Left, 2, point, &view)));
    assert!(!wrote(&processor.on_mouse_release(MouseButton::Left, &view, &host(), None)));
}

#[test]
fn turns_of_the_wheel_add_up() {
    let processor = processor();
    let mut mode = TermMode::empty();
    mode.alt_screen = true;
    mode.alternate_scroll = true;
    let keys = |lines: isize| match processor.scroll_terminal(true, lines, &mode).pop() {
        Some(Effect::WriteToPty(bytes)) => bytes,
        other => panic!("{:?}", other),
    };
    let mut both = keys(2);
    both.extend(keys(3));
    assert_eq!(both, keys(5));
    assert_eq!(keys(5).len(), 15);
    assert_eq!(keys(0), Vec::<u8>::new());
}

#[test]
fn positions_have_reports_of_their_own() {
    let mut seen = Vec::new();
    for column in 0..300 {
        let bytes = normal_mouse_report(0, Line(0), Column(column), true).unwrap();
        assert_eq!(bytes.len(), if column < 95 { 6 } else { 7 });
        assert!(std::str::from_utf8(&bytes).is_ok());
        assert!(!seen.contains(&bytes));
        seen.push(bytes);
    }
}

#[test]
fn reset_goes_back_over_all_moves() {
    let mut ctx = processor().ctx;
    let mut view = term();
    view.display_offset = 10;
    ctx.start_search(Direction::Right, &view);
    ctx.push_search('a', &view);
    let at = BufferPoint { line: 50, col: Column(0) };
    let found = BufferRange { start: at, end: at };
    ctx.goto_match_found(found, 10, 40);
    ctx.goto_match_found(found, 40, 25);
    view.display_offset = 60;
    ctx.scroll(25, &view, Point::new(Line(0), Column(0)));
    let effects = ctx.goto_match_missing(None, false, &view);
    match effects[0] {
        Effect::Do(Step::ScrollDisplay(Scroll::Delta(lines))) => assert_eq!(60 + lines, 10),
        ref other => panic!("{:?}", other),
    }
}
