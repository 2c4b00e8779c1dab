//! What the input logic knows of the terminal, the window and the devices.
//!
//! The grid, the renderer and the window system live outside this library. They hand over the
//! plain values below, and carry out the instructions of [`crate::effect`].
use crate::index::{Column, Line, Point};
use vstd::prelude::*;

verus! {

/// The terminal modes that decide how input is handled.
#[derive(Clone, Copy, PartialEq, Eq, Structural, Debug)]
pub struct TermMode {
    pub app_cursor: bool,
    pub app_keypad: bool,
    pub alt_screen: bool,
    pub alternate_scroll: bool,
    pub bracketed_paste: bool,
    pub focus_in_out: bool,
    pub urgency_hints: bool,
    pub vi: bool,
    pub sgr_mouse: bool,
    pub utf8_mouse: bool,
    /// Some kind of mouse reporting is on.
    pub mouse_mode: bool,
    /// Motion is reported whether or not a button is held.
    pub mouse_motion: bool,
    /// Motion is reported while a button is held.
    pub mouse_drag: bool,
}

impl TermMode {
    /// No mode is set.
    pub fn empty() -> (r: TermMode)
        ensures
            r == (TermMode {
                app_cursor: false,
                app_keypad: false,
                alt_screen: false,
                alternate_scroll: false,
                bracketed_paste: false,
                focus_in_out: false,
                urgency_hints: false,
                vi: false,
                sgr_mouse: false,
                utf8_mouse: false,
                mouse_mode: false,
                mouse_motion: false,
                mouse_drag: false,
            }),
    {
        TermMode {
            app_cursor: false,
            app_keypad: false,
            alt_screen: false,
            alternate_scroll: false,
            bracketed_paste: false,
            focus_in_out: false,
            urgency_hints: false,
            vi: false,
            sgr_mouse: false,
            utf8_mouse: false,
            mouse_mode: false,
            mouse_motion: false,
            mouse_drag: false,
        }
    }

    /// The program in the terminal receives the mouse.
    pub open spec fn reports_mouse(self) -> bool {
        self.mouse_mode && !self.vi
    }
}

/// How a selection grows.
#[derive(Clone, Copy, PartialEq, Eq, Structural, Debug)]
pub enum SelectionType {
    Simple,
    Block,
    Semantic,
    Lines,
}

/// What the input logic sees of a selection.
#[derive(Clone, Copy, PartialEq, Eq, Structural, Debug)]
pub struct SelectionView {
    pub ty: SelectionType,
    pub is_empty: bool,
}

/// A request to move the visible area over the scrollback.
#[derive(Clone, Copy, PartialEq, Eq, Structural, Debug)]
pub enum Scroll {
    Delta(isize),
    PageUp,
    PageDown,
    Top,
    Bottom,
}

/// The two clipboards of a desktop.
#[derive(Clone, Copy, PartialEq, Eq, Structural, Debug)]
pub enum ClipboardType {
    Clipboard,
    Selection,
}

/// A motion of the vi mode cursor.
#[derive(Clone, Copy, PartialEq, Eq, Structural, Debug)]
pub enum ViMotion {
    /// To the first occupied cell of the line.
    FirstOccupied,
    /// Any other motion, by the number that the terminal knows it by.
    Other(u8),
}

/// A snapshot of the terminal in the selected tab.
#[derive(Clone, Copy, Debug)]
pub struct TermView {
    pub mode: TermMode,
    pub screen_lines: usize,
    pub cols: usize,
    pub history_size: usize,
    pub total_lines: usize,
    pub display_offset: usize,
    pub vi_cursor: Point,
    pub selection: Option<SelectionView>,
    pub is_focused: bool,
}

impl TermView {
    /// A terminal has at least one cell.
    pub open spec fn wf(self) -> bool {
        self.screen_lines >= 1 && self.cols >= 1
    }

    /// Nothing is selected.
    pub open spec fn nothing_selected(self) -> bool {
        match self.selection {
            Some(s) => s.is_empty,
            None => true,
        }
    }

    /// The cell itself, or the one in the last line where the cell lies below the grid.
    pub open spec fn clamp_line(self, point: Point) -> Point {
        if point.line.0 >= self.screen_lines {
            Point { line: Line((self.screen_lines - 1) as usize), col: point.col }
        } else {
            point
        }
    }

    /// The nearest cell of the grid.
    pub open spec fn clamp(self, point: Point) -> Point {
        let p = self.clamp_line(point);
        if p.col.0 >= self.cols {
            Point { line: p.line, col: Column((self.cols - 1) as usize) }
        } else {
            p
        }
    }

    pub fn clamped_to_lines(&self, point: Point) -> (r: Point)
        requires
            self.wf(),
        ensures
            r == self.clamp_line(point),
    {
        if point.line.0 >= self.screen_lines {
            Point { line: Line(self.screen_lines - 1), col: point.col }
        } else {
            point
        }
    }

    pub fn clamped(&self, point: Point) -> (r: Point)
        requires
            self.wf(),
        ensures
            r == self.clamp(point),
    {
        let p = self.clamped_to_lines(point);
        if p.col.0 >= self.cols {
            Point { line: p.line, col: Column(self.cols - 1) }
        } else {
            p
        }
    }
}

/// The measures of the window, in whole pixels and cells.
#[derive(Clone, Copy, PartialEq, Eq, Structural, Debug)]
pub struct SizeInfo {
    pub width: i32,
    pub height: i32,
    pub cell_width: usize,
    /// Half of the width of a cell.
    pub half_cell_width: usize,
    pub cell_height: usize,
    pub padding_x: usize,
    pub padding_y: usize,
    /// The first pixel column to the right of the grid.
    pub grid_end: usize,
    /// The first pixel row below the grid.
    pub text_area_bottom: i32,
    pub screen_lines: usize,
    pub cols: usize,
}

impl SizeInfo {
    /// Lengths are not negative, and a cell has a width.
    pub open spec fn wf(self) -> bool {
        &&& self.width >= 0
        &&& self.height >= 0
        &&& self.cell_width >= 1
        &&& self.padding_y <= i32::MAX
    }
}

/// The state of a key or a mouse button.
#[derive(Clone, Copy, PartialEq, Eq, Structural, Debug)]
pub enum ElementState {
    Pressed,
    Released,
}

#[derive(Clone, Copy, PartialEq, Eq, Structural, Debug)]
pub enum MouseButton {
    Left,
    Right,
    Middle,
    Other(u8),
}

impl MouseButton {
    /// The number that the button is reported by; no more than three can be reported.
    pub open spec fn code(self) -> Option<u8> {
        match self {
            MouseButton::Left => Some(0),
            MouseButton::Middle => Some(1),
            MouseButton::Right => Some(2),
            MouseButton::Other(_) => None,
        }
    }
}

/// The phase of a gesture on a touchpad.
#[derive(Clone, Copy, PartialEq, Eq, Structural, Debug)]
pub enum TouchPhase {
    Started,
    Moved,
    Ended,
    Cancelled,
}

/// The modifier keys that are held.
#[derive(Clone, Copy, PartialEq, Eq, Structural, Debug)]
pub struct ModifiersState {
    pub shift: bool,
    pub ctrl: bool,
    pub alt: bool,
    pub logo: bool,
}

impl ModifiersState {
    /// No modifier is held.
    pub fn empty() -> (r: ModifiersState)
        ensures
            r == (ModifiersState { shift: false, ctrl: false, alt: false, logo: false }),
    {
        ModifiersState { shift: false, ctrl: false, alt: false, logo: false }
    }
}

/// A key event; `virtual_keycode` is the number of the key's meaning, where it has one.
#[derive(Clone, Copy, PartialEq, Eq, Structural, Debug)]
pub struct KeyboardInput {
    pub scancode: u32,
    pub state: ElementState,
    pub virtual_keycode: Option<u32>,
}

/// The shapes of the mouse cursor.
#[derive(Clone, Copy, PartialEq, Eq, Structural, Debug)]
pub enum CursorIcon {
    Default,
    Hand,
    Text,
}

/// A program and its arguments.
#[derive(Debug)]
pub struct Command {
    pub program: String,
    pub args: Vec<String>,
}

/// The value of a [`Command`].
pub struct CommandView {
    pub program: Seq<char>,
    pub args: Seq<Seq<char>>,
}

impl DeepView for Command {
    type V = CommandView;

    open spec fn deep_view(&self) -> CommandView {
        CommandView { program: self.program@, args: self.args.deep_view() }
    }
}

/// The window system.
#[derive(Clone, Copy, PartialEq, Eq, Structural, Debug)]
pub enum Platform {
    X11,
    Wayland,
    MacOs,
    Windows,
}

/// What the window shows and which timers run.
#[derive(Clone, Copy, Debug)]
pub struct HostView {
    pub platform: Platform,
    pub size: SizeInfo,
    /// The number of tabs.
    pub tab_len: usize,
    /// The lines of the message that is shown, if one is.
    pub message_lines: Option<usize>,
    /// The columns of the button that closes the message.
    pub close_button_width: usize,
    pub blink_scheduled: bool,
    pub delayed_search_scheduled: bool,
    pub selection_scroll_scheduled: bool,
}

} // verus!
