//! The instructions that the library gives to its host.
//!
//! A function of the library decides on a snapshot and returns a list of instructions. The host
//! carries them out in order. Where an instruction needs an answer, its comment names the
//! function that takes the answer; that function's own instructions are carried out before the
//! next one of the list.
use crate::index::{BufferPoint, BufferRange, Direction, Line, Point, Side};
use crate::term::{
    ClipboardType, Command, CommandView, CursorIcon, ElementState, ModifiersState,
    MouseButton, Scroll, SelectionType, TouchPhase, ViMotion,
};
use crate::wheel::WheelDelta;
use crate::word::Url;
use vstd::prelude::*;

verus! {

/// The timers that the host keeps.
#[derive(Clone, Copy, PartialEq, Eq, Structural, Debug)]
pub enum TimerId {
    SelectionScrolling,
    DelayedSearch,
    BlinkCursor,
}

/// The lists of bindings.
#[derive(Clone, Copy, PartialEq, Eq, Structural, Debug)]
pub enum BindingKind {
    Key,
    Mouse,
}

/// An instruction that carries no text.
#[derive(Clone, Copy, Debug)]
pub enum Step {
    /// Note that the selected terminal has to be drawn again.
    MarkDirty,
    /// Scroll the visible area, with nothing more to do.
    ScrollDisplay(Scroll),
    /// Scroll the visible area, then call `ActionContext::scroll`.
    Scroll(Scroll),
    /// Scroll as by `Scroll`, then call `ActionContext::keep_vi_cursor` with the cell that now
    /// shows what the vi mode cursor was on.
    ScrollBackBy(isize),
    /// Bring a cell of the buffer into view.
    ScrollToPoint(BufferPoint),
    /// Put the vi mode cursor on a cell of the buffer and bring it into view.
    ViGotoPoint(BufferPoint),
    /// Put the vi mode cursor on a visible cell.
    SetViCursor(Point),
    /// Put the vi mode cursor into a visible line.
    SetViLine(Line),
    /// Move the vi mode cursor over a number of lines of the scrollback; up where positive.
    ScrollViCursor(isize),
    ViMotion(ViMotion),
    ToggleViMode,
    ClearHistory,
    /// Ask the terminal to close.
    ExitTerminal,
    SetFocused(bool),
    /// Drop the selection.
    DropSelection,
    /// Begin a selection at a visible cell.
    StartSelection(SelectionType, Point, Side),
    /// Extend the selection to a visible cell.
    ExtendSelection(Point, Side),
    SetSelectionType(SelectionType),
    /// Widen the selection to whole cells.
    IncludeAll,
    /// Hand the selected text to `copy_selection`.
    CopySelection(ClipboardType),
    /// Drop the matches that the terminal highlights.
    CancelTerminalSearch,
    /// Search as `ActionContext::goto_match` says, with at most this many lines.
    GotoMatch(Option<usize>),
    /// Call `ActionContext::exit_search`.
    ExitSearch,
    /// Find the visible cells of the match and call `ActionContext::select_match`.
    SelectMatch(BufferRange),
    /// Search from the origin and call `ActionContext::advance_search_origin`.
    AdvanceSearch(Direction),
    /// Search from the cell next to the vi mode cursor, on the side that
    /// `ActionContext::vi_search_starts_before` says, and go to the cell of the match that
    /// `ActionContext::vi_search_target` says.
    ViSearch { direction: Direction, side: Side, to_end: bool },
    /// Call `ActionContext::start_search`.
    StartSearch(Direction),
    /// Call `ActionContext::confirm_search`.
    ConfirmSearch,
    /// Call `ActionContext::cancel_search`.
    CancelSearch,
    /// Call `ActionContext::pop_word_search`.
    SearchPopWord,
    SearchHistoryPrevious,
    SearchHistoryNext,
    ToggleGrepMode,
    /// Take up a character of a search, through `ActionContext::push_search`.
    SearchInput(char),
    /// Forget a timer, if it runs.
    Unschedule(TimerId),
    /// Scroll by this many lines at every tick of the selection timer.
    ScheduleSelectionScroll(isize),
    /// Change what the running selection timer scrolls by.
    UpdateSelectionScroll(isize),
    /// Search without a limit once the typing has paused, by `Event::SearchNext`.
    ScheduleDelayedSearch,
    /// Let the delayed search wait for the full delay again.
    PostponeDelayedSearch,
    /// Toggle the cursor at every tick; the interval is in milliseconds.
    ScheduleBlink(u64),
    /// Let the blink timer wait for the full interval again.
    PostponeBlink(u64),
    SetMouseVisible(bool),
    SetMouseCursor(CursorIcon),
    SetUrgent(bool),
    ToggleFullscreen,
    /// Switch between a window and a full screen in the same space.
    ToggleSimpleFullscreen,
    HideWindow,
    /// Hide all windows of the program.
    HideApplication,
    MinimizeWindow,
    /// Use the font at this size, in half points.
    SetFont(i16),
    /// Resize the display to a width and a height.
    SetDimensions(u32, u32),
    SetCursorDirty,
    PopMessage,
    /// Call `Processor::message_popped` with this number of lines, the message's that was
    /// taken away.
    MessagePopped(usize),
    /// Read the text at the address and call `ActionContext::launch_url`.
    LaunchUrl(Url),
    /// Load a clipboard and call `paste`.
    Paste(ClipboardType),
    /// Load a clipboard and answer the program in the terminal, in the form that the host keeps
    /// under this number.
    AnswerClipboard(ClipboardType, u64),
    /// Read the arguments of the process and call `spawn_arguments`.
    SpawnNewInstance,
    /// Call `TabManager::open_tab`.
    NewTab,
    /// Call `TabManager::select_previous_tab`.
    PreviousTab,
    /// Call `TabManager::select_next_tab`.
    NextTab,
    /// Call `TabManager::select_tab`.
    SelectTab(usize),
    /// Call `TabManager::remove_selected_tab`.
    RemoveSelectedTab,
    /// Call `ActionContext::update_cursor_blinking`.
    UpdateCursorBlinking,
    /// Call `Processor::modifiers_input`.
    ModifiersInput(ModifiersState),
    /// Measure the position and call `Processor::mouse_moved`.
    MouseMoved(i32, i32),
    /// Call `Processor::mouse_wheel_input`; the number is the bit pattern of the distance.
    MouseWheel(WheelDelta, TouchPhase, u64),
    /// Call `Processor::reset_mouse_cursor`.
    ResetMouseCursor,
    /// Call `Action::execute` on the binding at this index of the settings.
    RunBinding(BindingKind, usize),
    /// Call `Processor::on_mouse_press`.
    MousePress(MouseButton),
    /// Call `Processor::on_mouse_release`.
    MouseRelease(MouseButton),
    /// Find the word at the mouse and write it, as `Processor::word_click` says.
    FindWord(ElementState),
    /// Drop the messages about the configuration.
    RemoveConfigMessages,
    /// Let the selected terminal take over the new settings.
    UpdateTerminalConfig,
    /// Give the frame of the window the colors of the settings.
    UpdateWindowTheme,
    /// Draw the strokes of the font thin, or not.
    SetFontSmoothing(bool),
    /// Show the message that the host keeps under this number.
    PushMessage(u64),
    /// Take over the scale factor with this bit pattern.
    SetScaleFactor(u64),
}

/// An instruction to the host.
#[derive(Debug)]
pub enum Effect {
    WriteToPty(Vec<u8>),
    StoreClipboard(ClipboardType, String),
    /// Highlight the matches of a regular expression.
    StartTerminalSearch(String),
    SetTitle(String),
    StartDaemon(Command),
    /// Read the settings from a file and, where that succeeds, call `Processor::reload_config`.
    ReloadConfig(String),
    Do(Step),
}

/// The value of an [`Effect`].
pub enum EffectView {
    WriteToPty(Seq<u8>),
    StoreClipboard(ClipboardType, Seq<char>),
    StartTerminalSearch(Seq<char>),
    SetTitle(Seq<char>),
    StartDaemon(CommandView),
    ReloadConfig(Seq<char>),
    Do(Step),
}

impl DeepView for Effect {
    type V = EffectView;

    open spec fn deep_view(&self) -> EffectView {
        match self {
            Effect::WriteToPty(bytes) => EffectView::WriteToPty(bytes@),
            Effect::StoreClipboard(ty, text) => EffectView::StoreClipboard(*ty, text@),
            Effect::StartTerminalSearch(regex) => EffectView::StartTerminalSearch(regex@),
            Effect::SetTitle(title) => EffectView::SetTitle(title@),
            Effect::StartDaemon(command) => EffectView::StartDaemon(command.deep_view()),
            Effect::ReloadConfig(path) => EffectView::ReloadConfig(path@),
            Effect::Do(step) => EffectView::Do(*step),
        }
    }
}

/// The effects, as their values.
pub open spec fn values(effects: Vec<Effect>) -> Seq<EffectView> {
    effects.deep_view()
}

/// An instruction without text, as a value.
pub open spec fn act(step: Step) -> EffectView {
    EffectView::Do(step)
}

/// No instructions.
pub fn none() -> (r: Vec<Effect>)
    ensures
        values(r) == Seq::<EffectView>::empty(),
{
    let r: Vec<Effect> = Vec::new();
    assert(values(r) =~= Seq::<EffectView>::empty());
    r
}

/// Appends an instruction.
pub fn emit(effects: &mut Vec<Effect>, effect: Effect)
    ensures
        values(*final(effects)) == values(*old(effects)).push(effect.deep_view()),
{
    effects.push(effect);
    assert(values(*effects) =~= values(*old(effects)).push(effect.deep_view()));
}

/// Appends an instruction without text.
pub fn step(effects: &mut Vec<Effect>, step: Step)
    ensures
        values(*final(effects)) == values(*old(effects)).push(act(step)),
{
    emit(effects, Effect::Do(step));
}

/// Appends a list of instructions.
pub fn extend(effects: &mut Vec<Effect>, mut more: Vec<Effect>)
    ensures
        values(*final(effects)) == values(*old(effects)) + values(more),
{
    let ghost tail = more@;
    effects.append(&mut more);
    assert(effects@ =~= old(effects)@ + tail);
    assert(values(*effects) =~= values(*old(effects)) + tail.map_values(
        |e: Effect| e.deep_view(),
    ));
}

} // verus!
