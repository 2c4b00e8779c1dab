use std::sync::Arc;
use tabterm::child_pty::{after_read, child_environment, ReadAction, Winsize};
use tabterm::clipboard::Clipboard;
use tabterm::context::{copy_selection, spawn_arguments};
use tabterm::effect::Effect;
use tabterm::index::{Column, Line, Point};
use tabterm::tab_manager::{Resized, Tab, TabManager, TabRequest};
use tabterm::term::{ClipboardType, SizeInfo};
use tabterm::text::{drop_last_word, strip_escapes, type_line_breaks};
use tabterm::word::{find_word, RenderLine, RenderableCell, Rgb, Url, Word};

type Tabs = TabManager<&'static str, u8, u32, &'static str>;

fn size() -> SizeInfo {
    SizeInfo {
        width: 800,
        height: 600,
        cell_width: 10,
        half_cell_width: 5,
        cell_height: 20,
        padding_x: 0,
        padding_y: 0,
        grid_end: 800,
        text_area_bottom: 600,
        screen_lines: 25,
        cols: 80,
    }
}

fn tabs(names: Vec<&'static str>, selected: usize) -> Tabs {
    let mut manager = TabManager::new("proxy", 7);
    manager.set_size(size());
    manager.tabs = names.into_iter().map(|name| Tab::new(name.len() as u32, name)).collect();
    manager.set_selected_tab(selected);
    manager
}

fn names(manager: &Tabs) -> Vec<&'static str> {
    manager.tabs.iter().map(|tab| *tab.terminal).collect()
}

fn spawned(_request: TabRequest, _config: &u8, _proxy: &&'static str) -> Tab<u32, &'static str> {
    Tab::new(9, "new")
}

#[test]
fn first_tab_is_selected() {
    let mut manager: Tabs = TabManager::new("proxy", 7);
    assert_eq!(manager.num_tabs(), 0);
    assert_eq!(manager.selected_tab_idx(), None);
    assert_eq!(manager.next_tab_idx(), None);
    assert_eq!(manager.prev_tab_idx(), None);
    manager.set_size(size());
    assert_eq!(manager.new_tab(spawned), 0);
    assert_eq!(manager.tabs_len(), 1);
    assert_eq!(manager.selected_tab_idx(), Some(0));
}

#[test]
fn new_tab_stands_behind_the_selected_one() {
    let mut manager = tabs(vec!["a", "b", "c"], 0);
    let mut started = None;
    manager.current_working_directory_update = Some("/tmp".to_string());
    let index = manager.new_tab(|request: TabRequest, config: &u8, proxy: &&'static str| {
        started = Some((request.working_directory, request.size.cols, *config, *proxy));
        Tab::new(1, "new")
    });
    assert_eq!(started, Some((Some("/tmp".to_string()), 80, 7, "proxy")));
    assert_eq!(index, 1);
    assert_eq!(names(&manager), vec!["a", "new", "b", "c"]);
    assert_eq!(manager.selected_tab_idx(), Some(0));

    let mut manager = tabs(vec!["a", "b"], 1);
    assert_eq!(*manager.open_tab(spawned), "new");
    assert_eq!(names(&manager), vec!["a", "b", "new"]);
    assert_eq!(manager.selected_tab_idx(), Some(2));
}

#[test]
fn steps_go_round() {
    let mut manager = tabs(vec!["a", "b", "c"], 2);
    assert_eq!(manager.next_tab_idx(), Some(0));
    assert_eq!(manager.prev_tab_idx(), Some(1));
    assert_eq!(*manager.select_next_tab(), "a");
    assert_eq!(manager.prev_tab_idx(), Some(2));
    assert_eq!(*manager.select_previous_tab(), "c");
    assert_eq!(manager.selected_tab_idx(), Some(2));
    assert_eq!(manager.select_tab(1), Some(1));
}

#[test]
fn selection_survives_a_removal() {
    let mut manager = tabs(vec!["a", "b", "c"], 0);
    manager.remove_selected_tab(spawned);
    assert_eq!(names(&manager), vec!["b", "c"]);
    assert_eq!(manager.selected_tab_idx(), Some(0));

    let mut manager = tabs(vec!["a", "b", "c", "d"], 2);
    manager.remove_selected_tab(spawned);
    assert_eq!(names(&manager), vec!["a", "b", "d"]);
    assert_eq!(manager.selected_tab_idx(), Some(1));

    let mut manager = tabs(vec!["a", "b"], 1);
    manager.remove_selected_tab(spawned);
    assert_eq!(names(&manager), vec!["a"]);
    assert_eq!(manager.selected_tab_idx(), Some(0));

    manager.remove_selected_tab(spawned);
    assert_eq!(names(&manager), vec!["new"]);
    assert_eq!(manager.selected_tab_idx(), Some(0));
}

#[test]
fn opening_and_removing_a_tab_changes_nothing() {
    let mut manager = tabs(vec!["a", "b", "c"], 2);
    manager.open_tab(spawned);
    manager.remove_selected_tab(spawned);
    assert_eq!(names(&manager), vec!["a", "b", "c"]);
    assert_eq!(manager.selected_tab_idx(), Some(2));
}

#[test]
fn selected_tab_is_handed_out() {
    let mut manager = tabs(vec!["a", "bb"], 1);
    assert_eq!(*manager.get_selected_tab_pty(spawned), 2);
    assert_eq!(*manager.get_selected_tab_terminal(spawned), "bb");
    assert!(Arc::ptr_eq(&manager.selected_tab_arc(spawned).pty, &manager.tabs[1].pty));
    let mut manager: Tabs = TabManager::new("proxy", 7);
    manager.set_size(size());
    assert_eq!(*manager.get_selected_tab_terminal(spawned), "new");
    assert_eq!(manager.selected_tab_idx(), Some(0));
}

#[test]
fn every_tab_is_told_of_a_resize() {
    let mut manager = tabs(vec!["a", "bb"], 0);
    let told = manager.resize(SizeInfo { cols: 40, ..size() });
    let mut order = Vec::new();
    for one in told {
        order.push(match one {
            Resized::Terminal(terminal) => terminal.to_string(),
            Resized::Pty(pty) => pty.to_string(),
        });
    }
    assert_eq!(order, vec!["a", "1", "bb", "2"]);
    assert_eq!(manager.size.unwrap().cols, 40);
}

#[test]
fn titles_take_eight_columns() {
    let mut manager = tabs(vec!["a", "b", "c", "d", "e"], 1);
    let titles = vec![
        None,
        Some("vim".to_string()),
        Some("~/projects/tabs".to_string()),
        Some("12345678".to_string()),
        Some("日本".to_string()),
    ];
    manager.update_tab_titles(&titles);
    assert_eq!(
        manager.tab_titles,
        vec!["0       ", "*vim     ", "cts/tabs", "12345678", "日本    "]
    );
    manager.tabs.clear();
    manager.update_tab_titles(&Vec::new());
    assert!(manager.tab_titles.is_empty());
}

#[test]
fn child_process_sees_the_size_below_the_tab_bar() {
    let size = Winsize { ws_row: 25, ws_col: 80, ws_xpixel: 800, ws_ypixel: 600 };
    assert_eq!(
        size.below_tab_bar(),
        Winsize { ws_row: 24, ws_col: 80, ws_xpixel: 800, ws_ypixel: 600 }
    );
}

#[test]
fn child_process_gets_its_environment() {
    let pairs = child_environment("me", "/home/me");
    let expected = vec![
        ("LOGNAME", "me"),
        ("USER", "me"),
        ("HOME", "/home/me"),
        ("SHELL", "/bin/zsh"),
    ];
    let pairs: Vec<(&str, &str)> = pairs.iter().map(|p| (p.0.as_str(), p.1.as_str())).collect();
    assert_eq!(pairs, expected);
}

#[test]
fn output_is_fed_until_its_end() {
    assert_eq!(after_read::<()>(&Ok(3)), ReadAction::Feed);
    assert_eq!(after_read::<()>(&Ok(0)), ReadAction::Close);
    assert_eq!(after_read(&Err("interrupted")), ReadAction::Retry);
}

#[test]
fn clipboard_that_cannot_be_read_is_empty() {
    let mut clipboard = Clipboard::new();
    assert_eq!(clipboard.store(ClipboardType::Selection, "x".to_string()), "x");
    assert_eq!(clipboard.load::<()>(ClipboardType::Clipboard, Ok("y".to_string())), "y");
    let mut clipboard = Clipboard::new_nop();
    assert_eq!(clipboard.load(ClipboardType::Clipboard, Err("closed")), "");
}

#[test]
fn only_a_selection_is_copied() {
    let copied = copy_selection(ClipboardType::Clipboard, Some("x".to_string()));
    assert_eq!(
        format!("{:?}", copied),
        format!("{:?}", vec![Effect::StoreClipboard(ClipboardType::Clipboard, "x".to_string())])
    );
    assert_eq!(copy_selection(ClipboardType::Clipboard, Some(String::new())).len(), 0);
    assert_eq!(copy_selection(ClipboardType::Clipboard, None).len(), 0);
}

#[test]
fn new_instance_starts_in_the_current_directory() {
    let args: Vec<String> =
        vec!["-v", "--working-directory", "/old", "-e", "--working-directory"]
            .into_iter()
            .map(|arg| arg.to_string())
            .collect();
    assert_eq!(
        spawn_arguments(&args, Some("/new".to_string())),
        vec!["--working-directory", "/new", "-v", "-e"]
    );
    assert_eq!(spawn_arguments(&args, None), args);
}

#[test]
fn text_is_prepared_for_the_child_process() {
    assert_eq!(strip_escapes(&b"a\x1b[0mb\x1b".to_vec()), b"a[0mb".to_vec());
    assert_eq!(type_line_breaks(&b"a\r\nb\n\nc\r".to_vec()), b"a\rb\r\rc\r".to_vec());
    assert_eq!(type_line_breaks(&b"abc".to_vec()), b"abc".to_vec());
    assert_eq!(drop_last_word(&"one two".to_string()), "one ");
    assert_eq!(drop_last_word(&"one  \t".to_string()), "");
}

fn cells(rows: Vec<&str>) -> Vec<RenderableCell> {
    let mut cells = Vec::new();
    for (line, row) in rows.into_iter().enumerate() {
        for (column, c) in row.chars().enumerate() {
            let content = if c == '_' { None } else { Some(c) };
            cells.push(RenderableCell { line: Line(line), column: Column(column), content });
        }
    }
    cells
}

#[test]
fn word_under_the_mouse_is_found() {
    let cells = cells(vec!["ls src/ab", "two_three"]);
    let at = |line: usize, col: usize| find_word(&cells, Point::new(Line(line), Column(col)));
    assert_eq!(at(1, 1), "ls");
    assert_eq!(at(1, 4), "src/ab");
    assert_eq!(at(1, 8), "src/ab");
    assert_eq!(at(2, 0), "two");
    assert_eq!(at(2, 6), "three");
    // The cell in front of a word belongs to it.
    assert_eq!(at(1, 2), "src/ab");
    assert_eq!(at(3, 0), "");
}

fn line(row: usize, start: usize, end: usize) -> RenderLine {
    RenderLine {
        start: Point::new(Line(row), Column(start)),
        end: Point::new(Line(row), Column(end)),
        color: Rgb { r: 1, g: 2, b: 3 },
    }
}

#[test]
fn word_ends_before_its_offset() {
    let first = Url {
        start: Point::new(Line(0), Column(2)),
        end: Point::new(Line(0), Column(6)),
    };
    let second = Url {
        start: Point::new(Line(0), Column(5)),
        end: Point::new(Line(1), Column(1)),
    };
    let word = Word {
        lines: vec![line(0, 4, 9), line(1, 0, 1)],
        end_offset: 3,
        num_cols: Column(10),
        urls: vec![first, second],
    };
    assert_eq!(word.start(), Point::new(Line(0), Column(4)));
    assert_eq!(word.end(), Point::new(Line(0), Column(8)));
    assert_eq!(word.rects(), vec![line(0, 4, 8)]);
    assert_eq!(word.find_at(Point::new(Line(0), Column(5))), Some(first));
    assert_eq!(word.find_at(Point::new(Line(1), Column(0))), Some(second));
    assert_eq!(word.find_at(Point::new(Line(1), Column(2))), None);
}
