//! The settings that input handling depends on.
use crate::bindings::{Binding, Key};
use crate::term::{Command, MouseButton};
use vstd::prelude::*;

verus! {

#[derive(Debug)]
pub struct Config {
    /// The longest time between the clicks of a double click, in nanoseconds.
    pub double_click_threshold: u64,
    /// The longest time between the last clicks of a triple click, in nanoseconds.
    pub triple_click_threshold: u64,
    /// Hide the mouse cursor while text is typed.
    pub hide_when_typing: bool,
    /// Copy every selection to the clipboard.
    pub save_to_clipboard: bool,
    /// Send an escape before a character that is typed with Alt.
    pub alt_send_esc: bool,
    /// Let programs set the title of the window.
    pub dynamic_title: bool,
    pub title: String,
    /// The size of the font, in half points.
    pub font_size: i16,
    /// Draw the strokes of the font thin, where the platform can.
    pub use_thin_strokes: bool,
    /// The time for which the cursor is shown or hidden, in milliseconds.
    pub blink_interval: u64,
    /// Whether the cursor blinks, where that is not left to the program.
    pub cursor_blinking: Option<bool>,
    /// The same for the cursor of the vi mode, where that has a style of its own.
    pub vi_cursor_blinking: Option<Option<bool>>,
    pub url_launcher: Option<Command>,
    pub bell_command: Option<Command>,
    pub key_bindings: Vec<Binding<Key>>,
    pub mouse_bindings: Vec<Binding<MouseButton>>,
}

} // verus!
