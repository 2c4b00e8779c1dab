//! Keys and buttons that run actions.
use crate::term::{Command, ModifiersState, MouseButton, TermMode, ViMotion};
use vstd::prelude::*;

verus! {

/// Actions of the vi mode.
#[derive(Clone, Copy, PartialEq, Eq, Structural, Debug)]
pub enum ViAction {
    ToggleNormalSelection,
    ToggleLineSelection,
    ToggleBlockSelection,
    ToggleSemanticSelection,
    Open,
    SearchNext,
    SearchPrevious,
    SearchStart,
    SearchEnd,
}

/// Actions of a search.
#[derive(Clone, Copy, PartialEq, Eq, Structural, Debug)]
pub enum SearchAction {
    SearchFocusNext,
    SearchFocusPrevious,
    SearchConfirm,
    SearchCancel,
    SearchClear,
    SearchDeleteWord,
    SearchHistoryPrevious,
    SearchHistoryNext,
    GrepMode,
}

/// What a binding does.
#[derive(Debug)]
pub enum Action {
    NewTab,
    PreviousTab,
    NextTab,
    /// Write a text to the child process.
    Esc(String),
    Command(Command),
    ToggleViMode,
    ViMotion(ViMotion),
    ViAction(ViAction),
    SearchAction(SearchAction),
    SearchForward,
    SearchBackward,
    Copy,
    CopySelection,
    ClearSelection,
    Paste,
    PasteSelection,
    ToggleFullscreen,
    ToggleSimpleFullscreen,
    Hide,
    Minimize,
    Quit,
    IncreaseFontSize,
    DecreaseFontSize,
    ResetFontSize,
    ScrollPageUp,
    ScrollPageDown,
    ScrollHalfPageUp,
    ScrollHalfPageDown,
    ScrollLineUp,
    ScrollLineDown,
    ScrollToTop,
    ScrollToBottom,
    ClearHistory,
    ClearLogNotice,
    SpawnNewInstance,
    ReceiveChar,
    Nothing,
}

impl Action {
    /// Whether the key that runs the action is also typed.
    pub fn is_receive_char(&self) -> (r: bool)
        ensures
            r == (*self is ReceiveChar),
    {
        match self {
            Action::ReceiveChar => true,
            _ => false,
        }
    }
}

/// The states of the terminal that a binding can ask for.
#[derive(Clone, Copy, PartialEq, Eq, Structural, Debug)]
pub struct BindingMode {
    pub app_cursor: bool,
    pub app_keypad: bool,
    pub alt_screen: bool,
    pub vi: bool,
    pub search: bool,
}

impl BindingMode {
    /// No state.
    pub fn empty() -> (r: BindingMode)
        ensures
            r == (BindingMode {
                app_cursor: false,
                app_keypad: false,
                alt_screen: false,
                vi: false,
                search: false,
            }),
    {
        BindingMode {
            app_cursor: false,
            app_keypad: false,
            alt_screen: false,
            vi: false,
            search: false,
        }
    }

    pub open spec fn spec_new(mode: TermMode, search: bool) -> BindingMode {
        BindingMode {
            app_cursor: mode.app_cursor,
            app_keypad: mode.app_keypad,
            alt_screen: mode.alt_screen,
            vi: mode.vi,
            search,
        }
    }

    /// The state of a terminal.
    pub fn new(mode: &TermMode, search: bool) -> (r: BindingMode)
        ensures
            r == Self::spec_new(*mode, search),
    {
        BindingMode {
            app_cursor: mode.app_cursor,
            app_keypad: mode.app_keypad,
            alt_screen: mode.alt_screen,
            vi: mode.vi,
            search,
        }
    }

    /// Everything that `other` asks for is there.
    pub open spec fn spec_contains(self, other: BindingMode) -> bool {
        &&& other.app_cursor ==> self.app_cursor
        &&& other.app_keypad ==> self.app_keypad
        &&& other.alt_screen ==> self.alt_screen
        &&& other.vi ==> self.vi
        &&& other.search ==> self.search
    }

    /// Something of `other` is there.
    pub open spec fn spec_intersects(self, other: BindingMode) -> bool {
        ||| other.app_cursor && self.app_cursor
        ||| other.app_keypad && self.app_keypad
        ||| other.alt_screen && self.alt_screen
        ||| other.vi && self.vi
        ||| other.search && self.search
    }

    pub fn contains(&self, other: &BindingMode) -> (r: bool)
        ensures
            r == self.spec_contains(*other),
    {
        (!other.app_cursor || self.app_cursor) && (!other.app_keypad || self.app_keypad) && (
        !other.alt_screen || self.alt_screen) && (!other.vi || self.vi) && (!other.search
            || self.search)
    }

    pub fn intersects(&self, other: &BindingMode) -> (r: bool)
        ensures
            r == self.spec_intersects(*other),
    {
        (other.app_cursor && self.app_cursor) || (other.app_keypad && self.app_keypad) || (
        other.alt_screen && self.alt_screen) || (other.vi && self.vi) || (other.search
            && self.search)
    }
}

/// A key, by its place on the keyboard or by its meaning.
#[derive(Clone, Copy, PartialEq, Eq, Structural, Debug)]
pub enum Key {
    Scancode(u32),
    Keycode(u32),
}

/// A trigger and the action that it runs.
#[derive(Debug)]
pub struct Binding<T> {
    pub trigger: T,
    /// The modifiers that have to be held, and no others.
    pub mods: ModifiersState,
    pub action: Action,
    /// What the state has to hold.
    pub mode: BindingMode,
    /// What the state must not hold.
    pub notmode: BindingMode,
}

impl<T> Binding<T> {
    /// The state, the modifiers and the input are what the binding asks for.
    pub open spec fn triggered(self, mode: BindingMode, mods: ModifiersState, input: T) -> bool {
        &&& self.trigger == input
        &&& self.mods == mods
        &&& mode.spec_contains(self.mode)
        &&& !mode.spec_intersects(self.notmode)
    }
}

impl Binding<Key> {
    pub fn is_triggered_by(&self, mode: BindingMode, mods: ModifiersState, input: &Key) -> (r: bool)
        ensures
            r == self.triggered(mode, mods, *input),
    {
        self.trigger == *input && self.mods == mods && mode.contains(&self.mode)
            && !mode.intersects(&self.notmode)
    }
}

impl Binding<MouseButton> {
    pub fn is_triggered_by(
        &self,
        mode: BindingMode,
        mods: ModifiersState,
        input: &MouseButton,
    ) -> (r: bool)
        ensures
            r == self.triggered(mode, mods, *input),
    {
        self.trigger == *input && self.mods == mods && mode.contains(&self.mode)
            && !mode.intersects(&self.notmode)
    }
}

} // verus!
