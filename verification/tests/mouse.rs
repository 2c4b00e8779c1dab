use tabterm::bindings::{Action, Binding, BindingMode, Key};
use tabterm::config::Config;
use tabterm::context::{find_tab, ClickState, Mouse};
use tabterm::effect::{BindingKind, Effect, Step, TimerId};
use tabterm::event;
use tabterm::index::{Column, Direction, Line, Point};
use tabterm::input::Processor;
use tabterm::mouse::{
    clamp_pixel, get_mouse_side, message_or_tab_bar_mouse_state, update_selection_scrolling,
    MouseMotion, MouseState,
};
use tabterm::report::{focus_report, mouse_report, normal_mouse_report, sgr_mouse_report};
use tabterm::term::{
    ClipboardType, CursorIcon, ElementState, HostView, ModifiersState, MouseButton, Platform, SelectionType,
    SelectionView, SizeInfo, TermMode, TermView, TouchPhase,
};
use tabterm::wheel::{ScrollTarget, WheelAction, WheelDelta};
use tabterm::word::{RenderableCell, Url};

const KEY: Key = Key::Keycode(11);

fn config() -> Config {
    Config {
        double_click_threshold: 300_000_000,
        triple_click_threshold: 300_000_000,
        hide_when_typing: false,
        save_to_clipboard: false,
        alt_send_esc: true,
        dynamic_title: true,
        title: "term".to_string(),
        font_size: 22,
        use_thin_strokes: true,
        blink_interval: 750,
        cursor_blinking: None,
        vi_cursor_blinking: None,
        url_launcher: None,
        bell_command: None,
        key_bindings: Vec::new(),
        mouse_bindings: Vec::new(),
    }
}

fn size() -> SizeInfo {
    SizeInfo {
        width: 21,
        height: 51,
        cell_width: 3,
        half_cell_width: 1,
        cell_height: 3,
        padding_x: 0,
        padding_y: 0,
        grid_end: 21,
        text_area_bottom: 51,
        screen_lines: 17,
        cols: 7,
    }
}

fn term() -> TermView {
    TermView {
        mode: TermMode::empty(),
        screen_lines: 17,
        cols: 7,
        history_size: 0,
        total_lines: 17,
        display_offset: 0,
        vi_cursor: Point::new(Line(0), Column(0)),
        selection: None,
        is_focused: true,
    }
}

fn host() -> HostView {
    HostView {
        platform: Platform::X11,
        size: size(),
        tab_len: 0,
        message_lines: None,
        close_button_width: 3,
        blink_scheduled: false,
        delayed_search_scheduled: false,
        selection_scroll_scheduled: false,
    }
}

fn processor() -> Processor {
    event::Processor::new(config(), 0).input
}

fn show(effects: &Vec<Effect>) -> String {
    format!("{:?}", effects)
}

fn steps(list: Vec<Step>) -> String {
    let effects: Vec<Effect> = list.into_iter().map(Effect::Do).collect();
    show(&effects)
}

fn mods(shift: bool, ctrl: bool, alt: bool, logo: bool) -> ModifiersState {
    ModifiersState { shift, ctrl, alt, logo }
}

/// Presses a button at once after the state was reached, and tells the state that follows.
fn click_state_after(initial_state: ClickState, button: MouseButton) -> ClickState {
    let mut processor = processor();
    processor.ctx.mouse = Mouse { click_state: initial_state, ..Mouse::new(0) };
    let mode = TermMode::empty();
    let effects = processor.mouse_input(ElementState::Pressed, button, &mode, &host());
    for effect in effects {
        if let Effect::Do(Step::MousePress(button)) = effect {
            let point = Point::new(Line(0), Column(0));
            processor.on_mouse_press(button, 1, point, &term());
        }
    }
    processor.ctx.mouse.click_state
}

#[test]
fn single_click() {
    assert_eq!(click_state_after(ClickState::NoClick, MouseButton::Left), ClickState::Click);
}

#[test]
fn single_right_click() {
    assert_eq!(click_state_after(ClickState::NoClick, MouseButton::Right), ClickState::Click);
}

#[test]
fn single_middle_click() {
    assert_eq!(click_state_after(ClickState::NoClick, MouseButton::Middle), ClickState::NoClick);
}

#[test]
fn double_click() {
    assert_eq!(click_state_after(ClickState::Click, MouseButton::Left), ClickState::DoubleClick);
}

#[test]
fn triple_click() {
    assert_eq!(
        click_state_after(ClickState::DoubleClick, MouseButton::Left),
        ClickState::TripleClick
    );
}

#[test]
fn multi_click_separate_buttons() {
    assert_eq!(click_state_after(ClickState::DoubleClick, MouseButton::Right), ClickState::Click);
}

#[test]
fn slow_second_click_is_a_single_click() {
    let mut processor = processor();
    processor.ctx.mouse.click_state = ClickState::Click;
    let point = Point::new(Line(2), Column(1));
    processor.on_mouse_press(MouseButton::Left, 300_000_000, point, &term());
    assert_eq!(processor.ctx.mouse.click_state, ClickState::Click);
    processor.on_mouse_press(MouseButton::Left, 599_999_999, point, &term());
    assert_eq!(processor.ctx.mouse.click_state, ClickState::DoubleClick);
    assert_eq!(processor.ctx.mouse.last_click_timestamp, 599_999_999);
}

fn binding(mods: ModifiersState, action: &str, mode: BindingMode, notmode: BindingMode) -> Binding<Key> {
    Binding { trigger: KEY, mods, action: Action::Esc(action.to_string()), mode, notmode }
}

fn app_cursor() -> BindingMode {
    BindingMode { app_cursor: true, ..BindingMode::empty() }
}

#[test]
fn process_binding_nomode_shiftmod_require_shift() {
    let shift = mods(true, false, false, false);
    let binding = binding(shift, "\x1b[1;2D", BindingMode::empty(), BindingMode::empty());
    assert!(binding.is_triggered_by(BindingMode::empty(), shift, &KEY));
}

#[test]
fn process_binding_nomode_nomod_require_shift() {
    let shift = mods(true, false, false, false);
    let binding = binding(shift, "\x1b[1;2D", BindingMode::empty(), BindingMode::empty());
    assert!(!binding.is_triggered_by(BindingMode::empty(), ModifiersState::empty(), &KEY));
}

#[test]
fn process_binding_nomode_controlmod() {
    let ctrl = mods(false, true, false, false);
    let binding = binding(ctrl, "\x1b[1;5D", BindingMode::empty(), BindingMode::empty());
    assert!(binding.is_triggered_by(BindingMode::empty(), ctrl, &KEY));
}

#[test]
fn process_binding_nomode_nomod_require_not_appcursor() {
    let binding =
        binding(ModifiersState::empty(), "\x1b[D", BindingMode::empty(), app_cursor());
    assert!(binding.is_triggered_by(BindingMode::empty(), ModifiersState::empty(), &KEY));
}

#[test]
fn process_binding_appcursormode_nomod_require_appcursor() {
    let binding =
        binding(ModifiersState::empty(), "\x1bOD", app_cursor(), BindingMode::empty());
    assert!(binding.is_triggered_by(app_cursor(), ModifiersState::empty(), &KEY));
}

#[test]
fn process_binding_nomode_nomod_require_appcursor() {
    let binding =
        binding(ModifiersState::empty(), "\x1bOD", app_cursor(), BindingMode::empty());
    assert!(!binding.is_triggered_by(BindingMode::empty(), ModifiersState::empty(), &KEY));
}

#[test]
fn process_binding_appcursormode_appkeypadmode_nomod_require_appcursor() {
    let binding =
        binding(ModifiersState::empty(), "\x1bOD", app_cursor(), BindingMode::empty());
    let mode = BindingMode { app_keypad: true, ..app_cursor() };
    assert!(binding.is_triggered_by(mode, ModifiersState::empty(), &KEY));
}

#[test]
fn process_binding_fail_with_extra_mods() {
    let logo = mods(false, false, false, true);
    let binding = binding(logo, "arst", BindingMode::empty(), BindingMode::empty());
    assert!(!binding.is_triggered_by(BindingMode::empty(), mods(false, false, true, true), &KEY));
}

#[test]
fn binding_fails_in_a_mode_that_it_excludes() {
    let binding =
        binding(ModifiersState::empty(), "\x1b[D", BindingMode::empty(), app_cursor());
    assert!(!binding.is_triggered_by(app_cursor(), ModifiersState::empty(), &KEY));
}

#[test]
fn pixels_are_moved_into_the_window() {
    assert_eq!(clamp_pixel(-5, 20), 0);
    assert_eq!(clamp_pixel(7, 20), 7);
    assert_eq!(clamp_pixel(20, 20), 19);
    assert_eq!(clamp_pixel(3, 0), usize::MAX);
}

#[test]
fn side_is_right_past_the_middle_and_past_the_grid() {
    let size = size();
    assert_eq!(get_mouse_side(3, &size), Direction::Left);
    assert_eq!(get_mouse_side(4, &size), Direction::Left);
    assert_eq!(get_mouse_side(5, &size), Direction::Right);
    assert_eq!(get_mouse_side(21, &size), Direction::Right);
}

#[test]
fn tab_labels_leave_a_column_free() {
    assert_eq!(find_tab(Column(0), 2), None);
    assert_eq!(find_tab(Column(1), 2), Some(0));
    assert_eq!(find_tab(Column(5), 2), Some(0));
    assert_eq!(find_tab(Column(6), 2), None);
    assert_eq!(find_tab(Column(7), 2), Some(1));
    assert_eq!(find_tab(Column(12), 2), None);
    assert_eq!(find_tab(Column(13), 2), None);
}

#[test]
fn bars_are_told_apart() {
    let host = HostView { tab_len: 1, ..host() };
    let tab = Mouse { inside_tab_bar: true, column: Column(2), ..Mouse::new(0) };
    assert_eq!(
        message_or_tab_bar_mouse_state(&tab, false, &host),
        Some(MouseState::TabBarButton)
    );
    let free = Mouse { column: Column(6), ..tab };
    assert_eq!(message_or_tab_bar_mouse_state(&free, false, &host), None);

    let with_message = HostView { message_lines: Some(1), ..host };
    let below = Mouse { y: 52, column: Column(6), ..Mouse::new(0) };
    assert_eq!(
        message_or_tab_bar_mouse_state(&below, false, &with_message),
        Some(MouseState::MessageBar)
    );
    assert_eq!(message_or_tab_bar_mouse_state(&below, true, &with_message), None);
    assert_eq!(message_or_tab_bar_mouse_state(&below, false, &host), None);
}

#[test]
fn cursor_shows_what_can_be_clicked() {
    let start = Point::new(Line(0), Column(0));
    let url = Url { start, end: start };
    assert_eq!(CursorIcon::from(MouseState::Url(url)), CursorIcon::Hand);
    assert_eq!(CursorIcon::from(MouseState::MessageBarButton), CursorIcon::Hand);
    assert_eq!(CursorIcon::from(MouseState::TabBarButton), CursorIcon::Hand);
    assert_eq!(CursorIcon::from(MouseState::Text), CursorIcon::Text);
    assert_eq!(CursorIcon::from(MouseState::Mouse), CursorIcon::Default);
    assert_eq!(CursorIcon::from(MouseState::MessageBar), CursorIcon::Default);
}

#[test]
fn mouse_state_prefers_addresses_over_reports() {
    let start = Point::new(Line(0), Column(0));
    let url = Url { start, end: start };
    let mut view = term();
    view.mode.mouse_mode = true;
    let mut processor = processor();
    assert_eq!(processor.mouse_state(&view, &host(), Some(url)), MouseState::Url(url));
    assert_eq!(processor.mouse_state(&view, &host(), None), MouseState::Mouse);
    processor.ctx.modifiers.shift = true;
    assert_eq!(processor.mouse_state(&view, &host(), None), MouseState::Text);
}

#[test]
fn selection_scrolls_faster_further_away() {
    let size = SizeInfo { height: 500, text_area_bottom: 500, ..size() };
    let up = |y: i32, scheduled: bool| show(&update_selection_scrolling(y, 5, 10, &size, scheduled));
    assert_eq!(up(4, false), steps(vec![Step::ScheduleSelectionScroll(1)]));
    assert_eq!(up(-20, false), steps(vec![Step::ScheduleSelectionScroll(3)]));
    assert_eq!(up(-20, true), steps(vec![Step::UpdateSelectionScroll(3)]));
    assert_eq!(up(5, true), steps(vec![Step::Unschedule(TimerId::SelectionScrolling)]));
    assert_eq!(up(494, true), steps(vec![Step::Unschedule(TimerId::SelectionScrolling)]));
    assert_eq!(up(495, true), steps(vec![Step::UpdateSelectionScroll(-1)]));
    assert_eq!(up(520, false), steps(vec![Step::ScheduleSelectionScroll(-3)]));
}

fn motion(x: i32, y: i32, line: usize, col: usize) -> MouseMotion {
    MouseMotion {
        x,
        y,
        inside_text_area: true,
        point: Point::new(Line(line), Column(col)),
        tab_bar_line: line + 1,
        url: None,
        min_scroll_height: 5,
        scroll_step: 10,
    }
}

#[test]
fn motion_is_reported_by_the_button_that_is_held() {
    let mut view = term();
    view.mode.mouse_mode = true;
    view.mode.mouse_motion = true;
    view.mode.sgr_mouse = true;
    let mut processor = processor();
    let effects = processor.mouse_moved(&motion(4, 7, 2, 1), &view, &host());
    assert_eq!(
        show(&effects),
        show(&vec![
            Effect::Do(Step::SetMouseCursor(CursorIcon::Default)),
            Effect::WriteToPty(b"\x1b[<35;2;3M".to_vec()),
        ])
    );
    assert_eq!(processor.ctx.mouse.line, Line(2));
    assert_eq!(processor.ctx.mouse.column, Column(1));
    assert!(processor.ctx.mouse.block_url_launcher);

    processor.ctx.mouse.middle_button_state = ElementState::Pressed;
    let effects = processor.mouse_moved(&motion(7, 7, 2, 2), &view, &host());
    assert_eq!(
        show(&effects),
        show(&vec![
            Effect::Do(Step::SetMouseCursor(CursorIcon::Default)),
            Effect::WriteToPty(b"\x1b[<33;3;3M".to_vec()),
        ])
    );
    // In the same half of the same cell, only the cursor is set.
    let effects = processor.mouse_moved(&motion(6, 7, 2, 2), &view, &host());
    assert_eq!(show(&effects), steps(vec![Step::SetMouseCursor(CursorIcon::Default)]));
}

#[test]
fn dragging_extends_the_selection() {
    let view = TermView {
        selection: Some(SelectionView { ty: SelectionType::Simple, is_empty: false }),
        ..term()
    };
    let mut processor = processor();
    processor.ctx.mouse.left_button_state = ElementState::Pressed;
    let effects = processor.mouse_moved(&motion(4, 20, 6, 1), &view, &host());
    assert_eq!(
        show(&effects),
        steps(vec![
            Step::Unschedule(TimerId::SelectionScrolling),
            Step::SetMouseCursor(CursorIcon::Text),
            Step::ExtendSelection(Point::new(Line(6), Column(1)), Direction::Left),
            Step::MarkDirty,
        ])
    );
}

#[test]
fn motion_without_a_selection_does_not_scroll() {
    let mut processor = processor();
    let far = MouseMotion { y: i32::MIN, scroll_step: 0, ..motion(4, 0, 0, 1) };
    let effects = processor.mouse_moved(&far, &term(), &host());
    assert_eq!(show(&effects), steps(vec![Step::SetMouseCursor(CursorIcon::Text)]));
    assert_eq!(processor.ctx.mouse.y, 0);
}

#[test]
fn left_click_begins_a_selection() {
    let mut processor = processor();
    processor.ctx.mouse.cell_side = Direction::Right;
    let point = Point::new(Line(40), Column(3));
    let effects = processor.on_mouse_press(MouseButton::Left, 5, point, &term());
    let clamped = Point::new(Line(16), Column(3));
    assert_eq!(
        show(&effects),
        steps(vec![
            Step::DropSelection,
            Step::MarkDirty,
            Step::StartSelection(SelectionType::Simple, clamped, Direction::Right),
            Step::MarkDirty,
        ])
    );
    assert!(!processor.ctx.mouse.block_url_launcher);

    let effects = processor.on_mouse_press(MouseButton::Left, 6, point, &term());
    assert_eq!(
        show(&effects),
        steps(vec![
            Step::StartSelection(SelectionType::Semantic, clamped, Direction::Right),
            Step::MarkDirty,
        ])
    );
    assert!(processor.ctx.mouse.block_url_launcher);
}

#[test]
fn right_click_extends_the_selection() {
    let mut view = term();
    let mut processor = processor();
    processor.ctx.modifiers.ctrl = true;
    let point = Point::new(Line(4), Column(3));
    let effects = processor.on_mouse_press(MouseButton::Right, 5, point, &view);
    assert_eq!(show(&effects), steps(vec![]));

    view.selection = Some(SelectionView { ty: SelectionType::Simple, is_empty: false });
    view.mode.vi = true;
    processor.ctx.mouse.click_state = ClickState::NoClick;
    let effects = processor.on_mouse_press(MouseButton::Right, 6, point, &view);
    assert_eq!(
        show(&effects),
        steps(vec![
            Step::SetSelectionType(SelectionType::Block),
            Step::ExtendSelection(point, Direction::Left),
            Step::SetViCursor(point),
            Step::IncludeAll,
            Step::MarkDirty,
            Step::SetViCursor(point),
        ])
    );
}

#[test]
fn buttons_are_reported_to_a_program_that_asks() {
    let mut view = term();
    view.mode.mouse_mode = true;
    let mut processor = processor();
    processor.ctx.mouse.click_state = ClickState::DoubleClick;
    let point = Point::new(Line(0), Column(0));
    let effects = processor.on_mouse_press(MouseButton::Right, 5, point, &view);
    assert_eq!(show(&effects), show(&vec![Effect::WriteToPty(b"\x1b[M\"!!".to_vec())]));
    assert_eq!(processor.ctx.mouse.click_state, ClickState::NoClick);
    let effects = processor.on_mouse_press(MouseButton::Other(7), 5, point, &view);
    assert_eq!(show(&effects), steps(vec![]));
    let effects = processor.on_mouse_release(MouseButton::Left, &view, &host(), None);
    assert_eq!(show(&effects), show(&vec![Effect::WriteToPty(b"\x1b[M#!!".to_vec())]));
}

#[test]
fn release_opens_an_address_and_copies() {
    let start = Point::new(Line(1), Column(0));
    let url = Url { start, end: Point::new(Line(1), Column(4)) };
    let mut processor = processor();
    let effects = processor.on_mouse_release(MouseButton::Left, &term(), &host(), Some(url));
    assert_eq!(
        show(&effects),
        steps(vec![
            Step::LaunchUrl(url),
            Step::Unschedule(TimerId::SelectionScrolling),
            Step::CopySelection(ClipboardType::Selection),
        ])
    );
    processor.ctx.config.save_to_clipboard = true;
    let effects = processor.on_mouse_release(MouseButton::Right, &term(), &host(), Some(url));
    assert_eq!(
        show(&effects),
        steps(vec![
            Step::Unschedule(TimerId::SelectionScrolling),
            Step::CopySelection(ClipboardType::Clipboard),
            Step::CopySelection(ClipboardType::Selection),
        ])
    );
}

#[test]
fn first_line_selects_tabs() {
    let host = HostView { tab_len: 2, ..host() };
    let mut processor = processor();
    processor.ctx.mouse.column = Column(8);
    let effects = processor.mouse_input(ElementState::Pressed, MouseButton::Left, &TermMode::empty(), &host);
    assert_eq!(show(&effects), steps(vec![Step::SelectTab(1)]));
    assert_eq!(processor.ctx.mouse.left_button_state, ElementState::Pressed);
    // Between the labels, a press is an ordinary one.
    processor.ctx.mouse.column = Column(6);
    processor.ctx.config.mouse_bindings = vec![Binding {
        trigger: MouseButton::Middle,
        mods: ModifiersState::empty(),
        action: Action::PasteSelection,
        mode: BindingMode::empty(),
        notmode: BindingMode::empty(),
    }];
    let mode = TermMode::empty();
    let effects = processor.mouse_input(ElementState::Pressed, MouseButton::Middle, &mode, &host);
    assert_eq!(
        show(&effects),
        steps(vec![
            Step::RunBinding(BindingKind::Mouse, 0),
            Step::MousePress(MouseButton::Middle),
        ])
    );
}

#[test]
fn modifiers_add_to_a_click() {
    let mut processor = processor();
    processor.ctx.mouse.line = Line(3);
    processor.ctx.modifiers = mods(false, false, true, true);
    let effects = processor.mouse_input(ElementState::Released, MouseButton::Left, &TermMode::empty(), &host());
    assert_eq!(
        show(&effects),
        steps(vec![
            Step::MouseRelease(MouseButton::Left),
            Step::FindWord(ElementState::Released),
            Step::CopySelection(ClipboardType::Selection),
            Step::DropSelection,
            Step::MarkDirty,
        ])
    );
}

#[test]
fn press_below_the_terminal_is_an_ordinary_one() {
    let mut bar = host();
    bar.message_lines = Some(2);
    let mut processor = processor();
    processor.ctx.mouse.line = Line(18);
    processor.ctx.mouse.y = 53;
    processor.ctx.mouse.column = Column(5);
    let mode = TermMode::empty();
    let effects = processor.mouse_input(ElementState::Pressed, MouseButton::Left, &mode, &bar);
    assert_eq!(show(&effects), steps(vec![Step::MousePress(MouseButton::Left)]));
    assert!(!processor.ctx.display_update_pending);
}

#[test]
fn cursor_follows_the_message_bar() {
    let mut mode = TermMode::empty();
    let icon = |current: usize, new: Option<usize>, mode: &TermMode| {
        show(&Processor::message_popped(current, new, mode))
    };
    assert_eq!(icon(1, Some(2), &mode), steps(vec![Step::SetMouseCursor(CursorIcon::Default)]));
    assert_eq!(icon(2, Some(2), &mode), steps(vec![Step::SetMouseCursor(CursorIcon::Hand)]));
    assert_eq!(icon(2, None, &mode), steps(vec![Step::SetMouseCursor(CursorIcon::Text)]));
    mode.mouse_mode = true;
    assert_eq!(icon(2, None, &mode), steps(vec![Step::SetMouseCursor(CursorIcon::Default)]));
}

#[test]
fn clicked_word_is_typed() {
    let mut cells = Vec::new();
    for (i, c) in "ls src".chars().enumerate() {
        cells.push(RenderableCell { line: Line(0), column: Column(i), content: Some(c) });
    }
    let point = Point::new(Line(1), Column(4));
    let effects = Processor::word_click(ElementState::Pressed, &cells, point);
    assert_eq!(show(&effects), show(&vec![Effect::WriteToPty(b"src".to_vec())]));
    let effects = Processor::word_click(ElementState::Released, &cells, point);
    assert_eq!(show(&effects), steps(vec![]));
    let bar = Point::new(Line(0), Column(4));
    let effects = Processor::word_click(ElementState::Pressed, &cells, bar);
    assert_eq!(show(&effects), steps(vec![]));
}

#[test]
fn modifiers_change_the_cursor() {
    let mut view = term();
    view.mode.mouse_mode = true;
    let mut processor = processor();
    processor.highlighted_url =
        Some(Url { start: Point::new(Line(1), Column(0)), end: Point::new(Line(1), Column(2)) });
    let effects =
        processor.modifiers_input(mods(true, false, false, false), &view, &host(), None);
    assert_eq!(
        show(&effects),
        steps(vec![Step::MarkDirty, Step::SetMouseCursor(CursorIcon::Text)])
    );
    processor.ctx.modifiers.shift = false;
    let effects = processor.reset_mouse_cursor(&view, &host(), None);
    assert_eq!(show(&effects), steps(vec![Step::SetMouseCursor(CursorIcon::Default)]));
}

#[test]
fn wheel_scrolls_what_asks_for_it() {
    let mut processor = processor();
    assert_eq!(
        processor.mouse_wheel_input(WheelDelta::Lines, TouchPhase::Ended),
        WheelAction::Scroll
    );
    assert_eq!(
        processor.mouse_wheel_input(WheelDelta::Pixels, TouchPhase::Started),
        WheelAction::Reset
    );
    assert_eq!(
        processor.mouse_wheel_input(WheelDelta::Pixels, TouchPhase::Moved),
        WheelAction::Scroll
    );
    assert_eq!(
        processor.mouse_wheel_input(WheelDelta::Pixels, TouchPhase::Cancelled),
        WheelAction::Ignore
    );

    let mut mode = TermMode::empty();
    assert_eq!(processor.scroll_target(&mode), ScrollTarget::Scrollback);
    let effects = processor.scroll_terminal(false, -3, &mode);
    assert_eq!(show(&effects), steps(vec![Step::ScrollBackBy(-3)]));

    mode.alt_screen = true;
    mode.alternate_scroll = true;
    let effects = processor.scroll_terminal(true, 2, &mode);
    assert_eq!(show(&effects), show(&vec![Effect::WriteToPty(b"\x1bOA\x1bOA".to_vec())]));
    let effects = processor.scroll_terminal(false, -1, &mode);
    assert_eq!(show(&effects), show(&vec![Effect::WriteToPty(b"\x1bOB".to_vec())]));
    processor.ctx.modifiers.shift = true;
    assert_eq!(processor.scroll_target(&mode), ScrollTarget::Scrollback);

    mode.mouse_mode = true;
    processor.ctx.modifiers.shift = false;
    let effects = processor.scroll_terminal(true, 2, &mode);
    assert_eq!(
        show(&effects),
        show(&vec![
            Effect::WriteToPty(b"\x1b[M`!!".to_vec()),
            Effect::WriteToPty(b"\x1b[M`!!".to_vec()),
        ])
    );
}

#[test]
fn focus_is_reported_on_request() {
    let processor = processor();
    let mut mode = TermMode::empty();
    assert_eq!(show(&processor.on_focus_change(true, &mode)), steps(vec![]));
    mode.focus_in_out = true;
    assert_eq!(
        show(&processor.on_focus_change(false, &mode)),
        show(&vec![Effect::WriteToPty(b"\x1b[O".to_vec())])
    );
    assert_eq!(focus_report(true), b"\x1b[I".to_vec());
}

#[test]
fn reports_are_encoded() {
    assert_eq!(
        normal_mouse_report(0, Line(2), Column(4), false),
        Some(vec![0x1b, b'[', b'M', 32, 37, 35])
    );
    assert_eq!(normal_mouse_report(0, Line(223), Column(0), false), None);
    assert_eq!(
        normal_mouse_report(0, Line(222), Column(0), false),
        Some(vec![0x1b, b'[', b'M', 32, 33, 255])
    );
    assert_eq!(
        normal_mouse_report(3, Line(0), Column(95), true),
        Some(vec![0x1b, b'[', b'M', 35, 0xc2, 0x80, 33])
    );
    assert_eq!(normal_mouse_report(0, Line(2015), Column(0), true), None);
    assert_eq!(
        sgr_mouse_report(64, Line(9), Column(99), ElementState::Released),
        b"\x1b[<64;100;10m".to_vec()
    );
    let all = mods(true, true, true, false);
    let mut mode = TermMode::empty();
    mode.sgr_mouse = true;
    assert_eq!(
        mouse_report(2, ElementState::Pressed, &all, Line(0), Column(0), &mode),
        Some(b"\x1b[<30;1;1M".to_vec())
    );
}
