//! The state that input acts on, and the operations that actions are made of.
use crate::config::Config;
use crate::effect;
use crate::effect::{Effect, EffectView, Step, TimerId};
use crate::index::{BufferPoint, BufferRange, Column, Direction, Line, Point, Side};
use crate::search::{MatchQuery, SearchOutcome, SearchState, SearchView};
use crate::term::{
    ClipboardType, Command, CommandView, ElementState, ModifiersState, MouseButton, Scroll,
    SelectionType, SelectionView, TermMode, TermView,
};
use crate::text;
use vstd::prelude::*;

verus! {

/// The columns that a tab takes up in the tab bar.
pub const TAB_WIDTH: usize = 6;

/// The smallest font size, in half points; also the step by which the size changes.
pub const FONT_SIZE_STEP: i16 = 1;

/// The clicks that were made in short succession.
#[derive(Clone, Copy, PartialEq, Eq, Structural, Debug)]
pub enum ClickState {
    NoClick,
    Click,
    DoubleClick,
    TripleClick,
}

/// State of the mouse.
#[derive(Clone, Copy, Debug)]
pub struct Mouse {
    pub x: usize,
    pub y: usize,
    pub left_button_state: ElementState,
    pub middle_button_state: ElementState,
    pub right_button_state: ElementState,
    /// When a button was last pressed, in nanoseconds of a clock that never goes back.
    pub last_click_timestamp: u64,
    pub last_click_button: MouseButton,
    pub click_state: ClickState,
    pub line: Line,
    pub column: Column,
    pub cell_side: Side,
    pub block_url_launcher: bool,
    pub inside_text_area: bool,
    pub inside_tab_bar: bool,
}

impl Mouse {
    /// A mouse at the top left, with no button pressed yet.
    pub open spec fn initial(now: u64) -> Mouse {
        Mouse {
            x: 0,
            y: 0,
            left_button_state: ElementState::Released,
            middle_button_state: ElementState::Released,
            right_button_state: ElementState::Released,
            last_click_timestamp: now,
            last_click_button: MouseButton::Left,
            click_state: ClickState::NoClick,
            line: Line(0),
            column: Column(0),
            cell_side: Direction::Left,
            block_url_launcher: false,
            inside_text_area: false,
            inside_tab_bar: false,
        }
    }

    /// A mouse at the top left, with no button pressed yet.
    pub fn new(now: u64) -> (r: Mouse)
        ensures
            r == Self::initial(now),
    {
        Mouse {
            x: 0,
            y: 0,
            left_button_state: ElementState::Released,
            middle_button_state: ElementState::Released,
            right_button_state: ElementState::Released,
            last_click_timestamp: now,
            last_click_button: MouseButton::Left,
            click_state: ClickState::NoClick,
            line: Line(0),
            column: Column(0),
            cell_side: Direction::Left,
            block_url_launcher: false,
            inside_text_area: false,
            inside_tab_bar: false,
        }
    }

    pub open spec fn left_pressed(self) -> bool {
        self.left_button_state is Pressed
    }

    pub open spec fn right_pressed(self) -> bool {
        self.right_button_state is Pressed
    }
}

/// Everything that input changes or depends on, apart from the terminal.
#[derive(Debug)]
pub struct ActionContext {
    pub search_state: SearchState,
    pub mouse: Mouse,
    pub modifiers: ModifiersState,
    /// The characters that were typed since the last key was pressed.
    pub received_count: usize,
    /// Characters are not typed, since their key ran an action.
    pub suppress_chars: bool,
    /// The cursor is in the hidden half of its blinking.
    pub cursor_hidden: bool,
    /// The display has to be laid out again.
    pub display_update_pending: bool,
    /// The size of the font, in half points.
    pub font_size: i16,
    pub config: Config,
}

/// The selection grows to a cell; nothing happens where there is none.
pub open spec fn selection_update(
    term: TermView,
    searching: bool,
    point: Point,
    side: Side,
) -> Seq<EffectView> {
    if term.selection is None {
        Seq::empty()
    } else {
        let p = term.clamp_line(point);
        if term.mode.vi && !searching {
            seq![
                effect::act(Step::ExtendSelection(p, side)),
                effect::act(Step::SetViCursor(p)),
                effect::act(Step::IncludeAll),
                effect::act(Step::MarkDirty),
            ]
        } else {
            seq![effect::act(Step::ExtendSelection(p, side)), effect::act(Step::MarkDirty)]
        }
    }
}

/// The selection begins anew at a cell.
pub open spec fn selection_start(ty: SelectionType, point: Point, side: Side) -> Seq<EffectView> {
    seq![effect::act(Step::StartSelection(ty, point, side)), effect::act(Step::MarkDirty)]
}

/// The terminal once a selection has begun.
pub open spec fn selecting(term: TermView) -> TermView {
    TermView {
        selection: Some(SelectionView { ty: SelectionType::Simple, is_empty: true }),
        ..term
    }
}

/// The selection is dropped.
pub open spec fn selection_clear() -> Seq<EffectView> {
    seq![effect::act(Step::DropSelection), effect::act(Step::MarkDirty)]
}

/// A selection of the type is switched on, from another type to this one, or off.
pub open spec fn selection_toggle(
    term: TermView,
    ty: SelectionType,
    point: Point,
    side: Side,
) -> Seq<EffectView> {
    if term.nothing_selected() {
        selection_start(ty, point, side)
    } else if term.selection->0.ty == ty {
        selection_clear()
    } else {
        seq![effect::act(Step::SetSelectionType(ty)), effect::act(Step::MarkDirty)]
    }
}

/// Typing shows the cursor, and hides the mouse if it is set to do so.
pub open spec fn typing_effects(config: Config, blinking: bool) -> Seq<EffectView> {
    (if blinking {
        seq![
            effect::act(Step::PostponeBlink(config.blink_interval)),
            effect::act(Step::MarkDirty),
        ]
    } else {
        Seq::empty()
    }) + (if config.hide_when_typing {
        seq![effect::act(Step::SetMouseVisible(false))]
    } else {
        Seq::empty()
    })
}

/// The tab whose label covers a column of the tab bar; the column before each label is free.
pub open spec fn tab_at(col: int, tab_count: int) -> Option<usize> {
    if col < tab_count * TAB_WIDTH && col % TAB_WIDTH as int != 0 {
        Some((col / TAB_WIDTH as int) as usize)
    } else {
        None
    }
}

/// Get the tab whose label covers a column.
pub fn find_tab(col: Column, tab_len: usize) -> (r: Option<usize>)
    requires
        tab_len * TAB_WIDTH <= usize::MAX,
    ensures
        r == tab_at(col.0 as int, tab_len as int),
{
    let c: usize = col.0;
    if c < tab_len * TAB_WIDTH {
        if c % TAB_WIDTH != 0 {
            return Some(c / TAB_WIDTH);
        }
    }
    None
}

/// A column of the tab bar leads to a tab that exists, or to none.
pub proof fn law_found_tab_exists(col: int, tab_count: int)
    requires
        0 <= col,
        0 <= tab_count,
        tab_count * TAB_WIDTH <= usize::MAX,
    ensures
        tab_at(col, tab_count) is Some ==> tab_at(col, tab_count)->0 < tab_count,
{
}

/// Every tab can be reached from the tab bar.
pub proof fn law_every_tab_has_a_column(tab: int, tab_count: int)
    requires
        0 <= tab < tab_count,
        tab_count * TAB_WIDTH <= usize::MAX,
    ensures
        tab_at(tab * TAB_WIDTH + 1, tab_count) == Some(tab as usize),
{
}

/// The program in the terminal receives the mouse.
pub fn mouse_mode(mode: &TermMode) -> (r: bool)
    ensures
        r == mode.reports_mouse(),
{
    mode.mouse_mode && !mode.vi
}

/// The cell under the mouse, where the mouse is over the grid.
pub fn mouse_coords(inside_grid: bool, coords: Point) -> (r: Option<Point>)
    ensures
        r == if inside_grid {
            Some(coords)
        } else {
            None
        },
{
    if inside_grid {
        Some(coords)
    } else {
        None
    }
}

/// Whether nothing is selected.
pub fn selection_is_empty(term: &TermView) -> (r: bool)
    ensures
        r == term.nothing_selected(),
{
    match &term.selection {
        Some(selection) => selection.is_empty,
        None => true,
    }
}

/// Drops the selection.
pub fn clear_selection() -> (r: Vec<Effect>)
    ensures
        effect::values(r) == selection_clear(),
{
    let mut fx = effect::none();
    effect::step(&mut fx, Step::DropSelection);
    effect::step(&mut fx, Step::MarkDirty);
    fx
}

/// Begins a selection.
pub fn start_selection(ty: SelectionType, point: Point, side: Side) -> (r: Vec<Effect>)
    ensures
        effect::values(r) == selection_start(ty, point, side),
{
    let mut fx = effect::none();
    effect::step(&mut fx, Step::StartSelection(ty, point, side));
    effect::step(&mut fx, Step::MarkDirty);
    fx
}

/// Switches a type of selection on or off.
pub fn toggle_selection(ty: SelectionType, point: Point, side: Side, term: &TermView) -> (r: Vec<
    Effect,
>)
    ensures
        effect::values(r) == selection_toggle(*term, ty, point, side),
{
    match &term.selection {
        Some(selection) => {
            if selection.ty == ty && !selection.is_empty {
                clear_selection()
            } else if !selection.is_empty {
                let mut fx = effect::none();
                effect::step(&mut fx, Step::SetSelectionType(ty));
                effect::step(&mut fx, Step::MarkDirty);
                fx
            } else {
                start_selection(ty, point, side)
            }
        },
        None => start_selection(ty, point, side),
    }
}

/// The text that is copied: nothing where nothing is selected.
pub open spec fn copied(ty: ClipboardType, selected: Option<Seq<char>>) -> Seq<EffectView> {
    if selected is Some && selected->0.len() > 0 {
        seq![EffectView::StoreClipboard(ty, selected->0)]
    } else {
        Seq::empty()
    }
}

/// Copies the selected text.
pub fn copy_selection(ty: ClipboardType, selected: Option<String>) -> (r: Vec<Effect>)
    ensures
        effect::values(r) == copied(ty, text::optional(selected)),
{
    let mut fx = effect::none();
    if let Some(selected) = selected {
        if !selected.as_str().is_empty() {
            effect::emit(&mut fx, Effect::StoreClipboard(ty, selected));
        }
    }
    fx
}

/// The arguments without the option that sets the directory, and its value.
pub open spec fn without_directory(args: Seq<Seq<char>>) -> Seq<Seq<char>>
    decreases args.len(),
{
    if args.len() == 0 {
        args
    } else if args[0] != "--working-directory"@ {
        seq![args[0]] + without_directory(args.skip(1))
    } else if args.len() == 1 {
        Seq::empty()
    } else {
        without_directory(args.skip(2))
    }
}

/// The arguments of a new instance: those of this one, but in a directory where one is known.
pub open spec fn instance_arguments(
    args: Seq<Seq<char>>,
    directory: Option<Seq<char>>,
) -> Seq<Seq<char>> {
    match directory {
        Some(d) => seq!["--working-directory"@, d] + without_directory(args),
        None => args,
    }
}

/// Makes up the arguments of a new instance, from those behind the program's name.
pub fn spawn_arguments(args: &Vec<String>, directory: Option<String>) -> (r: Vec<String>)
    ensures
        r.deep_view() == instance_arguments(args.deep_view(), text::optional(directory)),
{
    let ghost wanted = instance_arguments(args.deep_view(), text::optional(directory));
    let working_directory_set = directory.is_some();
    let mut r: Vec<String> = Vec::new();
    if let Some(directory) = directory {
        r.push("--working-directory".to_owned());
        r.push(directory);
        assert(r.deep_view() =~= seq!["--working-directory"@, directory@]);
    }
    let ghost all = args.deep_view();
    let mut i: usize = 0;
    assert(all.skip(0) =~= all);
    assert(r.deep_view() + (if working_directory_set {
        without_directory(all.skip(0))
    } else {
        all.skip(0)
    }) =~= wanted);
    while i < args.len()
        invariant
            i <= args@.len(),
            all == args.deep_view(),
            r.deep_view() + (if working_directory_set {
                without_directory(all.skip(i as int))
            } else {
                all.skip(i as int)
            }) == wanted,
        decreases args@.len() - i,
    {
        let ghost rest = all.skip(i as int);
        assert(rest[0] == args@[i as int]@);
        assert(rest.skip(1) =~= all.skip(i + 1));
        if working_directory_set && text::same_text(&args[i], "--working-directory") {
            if i + 1 < args.len() {
                assert(rest.skip(2) =~= all.skip(i + 2));
                i += 2;
            } else {
                assert(all.skip(i + 1) =~= Seq::empty());
                i += 1;
            }
        } else {
            let ghost before = r.deep_view();
            r.push(args[i].clone());
            assert(r.deep_view() =~= before.push(rest[0]));
            assert(rest =~= seq![rest[0]] + all.skip(i + 1));
            assert(before.push(rest[0]) + (if working_directory_set {
                without_directory(all.skip(i + 1))
            } else {
                all.skip(i + 1)
            }) =~= before + (if working_directory_set {
                without_directory(rest)
            } else {
                rest
            }));
            i += 1;
        }
    }
    assert(all.skip(i as int) =~= Seq::empty());
    assert(r.deep_view() + Seq::empty() =~= r.deep_view());
    r
}

/// A copy of a command.
pub fn clone_command(command: &Command) -> (r: Command)
    ensures
        r.deep_view() == command.deep_view(),
{
    Command { program: command.program.clone(), args: clone_texts(&command.args) }
}

fn clone_texts(texts: &Vec<String>) -> (r: Vec<String>)
    ensures
        r.deep_view() == texts.deep_view(),
{
    let mut r: Vec<String> = Vec::new();
    let mut i: usize = 0;
    while i < texts.len()
        invariant
            i <= texts@.len(),
            r@ == texts@.take(i as int),
        decreases texts@.len() - i,
    {
        r.push(texts[i].clone());
        i += 1;
        assert(r@ =~= texts@.take(i as int));
    }
    assert(r@ =~= texts@);
    r
}

/// The command that opens an address: the launcher, with the address behind its arguments.
pub open spec fn launch_command(launcher: CommandView, address: Seq<char>) -> CommandView {
    CommandView { program: launcher.program, args: launcher.args.push(address) }
}

/// Whether the cursor blinks, by the settings for the mode, or else by what the program asked for.
pub open spec fn cursor_blinks(config: Config, vi: bool, terminal_blinking: bool) -> bool {
    let setting = if vi && config.vi_cursor_blinking is Some {
        config.vi_cursor_blinking->0
    } else {
        config.cursor_blinking
    };
    match setting {
        Some(blinking) => blinking,
        None => terminal_blinking,
    }
}

/// The larger of the font size, changed by `delta`, and the smallest size.
pub open spec fn changed_font_size(size: int, delta: int) -> int {
    let sum = size + delta;
    if sum > i16::MAX {
        i16::MAX as int
    } else if sum < FONT_SIZE_STEP {
        FONT_SIZE_STEP as int
    } else {
        sum
    }
}

impl ActionContext {
    /// Everything but the search and the display is the same.
    pub open spec fn same_input(self, other: ActionContext) -> bool {
        &&& self.mouse == other.mouse
        &&& self.modifiers == other.modifiers
        &&& self.received_count == other.received_count
        &&& self.suppress_chars == other.suppress_chars
        &&& self.cursor_hidden == other.cursor_hidden
        &&& self.font_size == other.font_size
        &&& self.config == other.config
    }

    /// This context after a step of its search.
    pub open spec fn search_step(
        self,
        outcome: SearchOutcome,
        after: ActionContext,
        effects: Vec<Effect>,
    ) -> bool {
        &&& after.search_state@ == outcome.state
        &&& after.display_update_pending == (self.display_update_pending || outcome.redisplay)
        &&& after.same_input(self)
        &&& effect::values(effects) == outcome.effects
    }

    pub open spec fn searching(self) -> bool {
        self.search_state@.active()
    }

    /// Whether a search is active.
    pub fn search_active(&self) -> (r: bool)
        ensures
            r == self.searching(),
    {
        self.search_state.is_active()
    }

    /// The selection grows to a cell; one below the grid counts as in the last line.
    pub fn update_selection(&self, point: Point, side: Side, term: &TermView) -> (r: Vec<Effect>)
        requires
            term.wf(),
        ensures
            effect::values(r) == selection_update(*term, self.searching(), point, side),
    {
        let mut fx = effect::none();
        if term.selection.is_none() {
            return fx;
        }
        let point = term.clamped_to_lines(point);
        effect::step(&mut fx, Step::ExtendSelection(point, side));
        if term.mode.vi && !self.search_active() {
            effect::step(&mut fx, Step::SetViCursor(point));
            effect::step(&mut fx, Step::IncludeAll);
        }
        effect::step(&mut fx, Step::MarkDirty);
        fx
    }

    /// What follows on a scroll: the selection is drawn along, by the vi mode cursor or by the
    /// mouse.
    pub open spec fn scrolled(self, term: TermView, mouse_point: Point) -> Seq<EffectView> {
        let held = self.mouse.left_pressed() || self.mouse.right_pressed();
        if term.mode.vi && !(term.selection is Some && term.selection->0.is_empty) {
            selection_update(term, self.searching(), term.vi_cursor, Direction::Right)
        } else if held {
            selection_update(term, self.searching(), mouse_point, self.mouse.cell_side)
        } else {
            Seq::empty()
        }
    }

    /// Takes note of a scroll that moved the view from `old_offset` to where it is now, with
    /// the mouse over the cell `mouse_point`.
    pub fn scroll(&mut self, old_offset: usize, term: &TermView, mouse_point: Point) -> (r: Vec<
        Effect,
    >)
        requires
            term.wf(),
            old_offset <= isize::MAX,
            term.display_offset <= isize::MAX,
            old(self).searching() ==> isize::MIN <= old(
                self,
            ).search_state.display_offset_delta + old_offset - term.display_offset <= isize::MAX,
        ensures
            *final(self) == (ActionContext {
                search_state: SearchState {
                    display_offset_delta: if old(self).searching() {
                        (old(self).search_state.display_offset_delta + old_offset
                            - term.display_offset) as isize
                    } else {
                        old(self).search_state.display_offset_delta
                    },
                    ..old(self).search_state
                },
                ..*old(self)
            }),
            effect::values(r) == old(self).scrolled(*term, mouse_point),
    {
        if self.search_active() {
            let change: isize = old_offset as isize - term.display_offset as isize;
            self.search_state.display_offset_delta = self.search_state.display_offset_delta
                + change;
        }
        let empty = match &term.selection {
            Some(selection) => selection.is_empty,
            None => false,
        };
        let left_pressed = self.mouse.left_button_state == ElementState::Pressed;
        let right_pressed = self.mouse.right_button_state == ElementState::Pressed;
        if term.mode.vi && !empty {
            self.update_selection(term.vi_cursor, Direction::Right, term)
        } else if left_pressed || right_pressed {
            self.update_selection(mouse_point, self.mouse.cell_side, term)
        } else {
            effect::none()
        }
    }

    /// Puts the vi mode cursor back above its content after a scroll: in the line that is
    /// nearest to it now and in the column it was in. A selection that was there before the
    /// scroll, in vi mode, follows.
    pub fn keep_vi_cursor(
        &self,
        nearest: Point,
        col: Column,
        was_vi: bool,
        had_selection: bool,
        term: &TermView,
    ) -> (r: Vec<Effect>)
        requires
            term.wf(),
        ensures
            effect::values(r) == seq![
                effect::act(Step::SetViCursor(Point { line: nearest.line, col })),
            ] + (if was_vi && had_selection {
                selection_update(
                    *term,
                    self.searching(),
                    Point { line: nearest.line, col },
                    Direction::Right,
                )
            } else {
                Seq::empty()
            }),
    {
        let point = Point { line: nearest.line, col };
        let mut fx = effect::none();
        effect::step(&mut fx, Step::SetViCursor(point));
        if was_vi && had_selection {
            let more = self.update_selection(point, Direction::Right, term);
            effect::extend(&mut fx, more);
        }
        fx
    }

    /// The command that opens an address, unless the mouse has moved since the button was pressed
    /// or nothing opens addresses.
    pub fn launch_url(&self, address: String) -> (r: Vec<Effect>)
        ensures
            effect::values(r) == if self.mouse.block_url_launcher
                || self.config.url_launcher is None {
                Seq::empty()
            } else {
                seq![
                    EffectView::StartDaemon(
                        launch_command(self.config.url_launcher->0.deep_view(), address@),
                    ),
                ]
            },
    {
        let mut fx = effect::none();
        if self.mouse.block_url_launcher {
            return fx;
        }
        if let Some(launcher) = &self.config.url_launcher {
            let mut command = clone_command(launcher);
            let ghost args = command.args.deep_view();
            command.args.push(address);
            assert(command.args.deep_view() =~= args.push(address@));
            effect::emit(&mut fx, Effect::StartDaemon(command));
        }
        fx
    }

    /// Changes the font size by a number of half points.
    pub fn change_font_size(&mut self, delta: i16) -> (r: Vec<Effect>)
        ensures
            *final(self) == (ActionContext {
                font_size: changed_font_size(old(self).font_size as int, delta as int) as i16,
                ..*old(self)
            }),
            effect::values(r) == seq![
                effect::act(Step::SetFont(final(self).font_size)),
                effect::act(Step::MarkDirty),
            ],
    {
        let sum: i32 = self.font_size as i32 + delta as i32;
        self.font_size = if sum > 32767 {
            32767
        } else if sum < FONT_SIZE_STEP as i32 {
            FONT_SIZE_STEP
        } else {
            sum as i16
        };
        let mut fx = effect::none();
        effect::step(&mut fx, Step::SetFont(self.font_size));
        effect::step(&mut fx, Step::MarkDirty);
        fx
    }

    /// Goes back to the font size of the settings.
    pub fn reset_font_size(&mut self) -> (r: Vec<Effect>)
        ensures
            *final(self) == (ActionContext {
                font_size: old(self).config.font_size,
                ..*old(self)
            }),
            effect::values(r) == seq![
                effect::act(Step::SetFont(old(self).config.font_size)),
                effect::act(Step::MarkDirty),
            ],
    {
        self.font_size = self.config.font_size;
        let mut fx = effect::none();
        effect::step(&mut fx, Step::SetFont(self.font_size));
        effect::step(&mut fx, Step::MarkDirty);
        fx
    }

    /// Takes away the message that is shown, if there is one.
    pub fn pop_message(&mut self, no_messages: bool) -> (r: Vec<Effect>)
        ensures
            *final(self) == (ActionContext {
                display_update_pending: old(self).display_update_pending || !no_messages,
                ..*old(self)
            }),
            effect::values(r) == if no_messages {
                Seq::empty()
            } else {
                seq![effect::act(Step::PopMessage)]
            },
    {
        let mut fx = effect::none();
        if !no_messages {
            self.display_update_pending = true;
            effect::step(&mut fx, Step::PopMessage);
        }
        fx
    }

    /// Handle keyboard typing start.
    ///
    /// This will temporarily disable some features like terminal cursor blinking or the mouse
    /// cursor. All features are re-enabled again automatically.
    pub fn on_typing_start(&mut self, blink_scheduled: bool) -> (r: Vec<Effect>)
        ensures
            *final(self) == (ActionContext {
                cursor_hidden: old(self).cursor_hidden && !blink_scheduled,
                ..*old(self)
            }),
            effect::values(r) == typing_effects(old(self).config, blink_scheduled),
    {
        let mut fx = effect::none();
        if blink_scheduled {
            effect::step(&mut fx, Step::PostponeBlink(self.config.blink_interval));
            self.cursor_hidden = false;
            effect::step(&mut fx, Step::MarkDirty);
        }
        if self.config.hide_when_typing {
            effect::step(&mut fx, Step::SetMouseVisible(false));
        }
        assert(effect::values(fx) =~= typing_effects(old(self).config, blink_scheduled));
        fx
    }

    /// Update the cursor blinking state.
    pub fn update_cursor_blinking(&mut self, term: &TermView, terminal_blinking: bool) -> (r: Vec<
        Effect,
    >)
        ensures
            ({
                let blinks = cursor_blinks(old(self).config, term.mode.vi, terminal_blinking)
                    && term.is_focused;
                &&& *final(self) == (ActionContext {
                    cursor_hidden: old(self).cursor_hidden && blinks,
                    ..*old(self)
                })
                &&& effect::values(r) == seq![
                    effect::act(Step::Unschedule(TimerId::BlinkCursor)),
                    effect::act(
                        if blinks {
                            Step::ScheduleBlink(old(self).config.blink_interval)
                        } else {
                            Step::MarkDirty
                        },
                    ),
                ]
            }),
    {
        let mut blinking_override: Option<bool> = self.config.cursor_blinking;
        if term.mode.vi {
            if let Some(vi_override) = self.config.vi_cursor_blinking {
                blinking_override = vi_override;
            }
        }
        let blinking = match blinking_override {
            Some(blinking) => blinking,
            None => terminal_blinking,
        };
        let mut fx = effect::none();
        effect::step(&mut fx, Step::Unschedule(TimerId::BlinkCursor));
        if blinking && term.is_focused {
            effect::step(&mut fx, Step::ScheduleBlink(self.config.blink_interval));
        } else {
            self.cursor_hidden = false;
            effect::step(&mut fx, Step::MarkDirty);
        }
        fx
    }

    /// Begins a search in a direction.
    pub fn start_search(&mut self, direction: Direction, term: &TermView) -> (r: Vec<Effect>)
        requires
            SearchView::can_start(direction, *term),
        ensures
            old(self).search_step(
                old(self).search_state@.started(direction, *term),
                *final(self),
                r,
            ),
    {
        let fx = self.search_state.start(direction, term);
        self.display_update_pending = true;
        fx
    }

    /// Keeps what was found: an outstanding search is made first.
    pub fn confirm_search(&self, delayed_search_scheduled: bool) -> (r: Vec<Effect>)
        ensures
            effect::values(r) == (if delayed_search_scheduled {
                seq![effect::act(Step::GotoMatch(None))]
            } else {
                Seq::empty()
            }).push(effect::act(Step::ExitSearch)),
    {
        let mut fx = effect::none();
        if delayed_search_scheduled {
            effect::step(&mut fx, Step::GotoMatch(None));
        }
        effect::step(&mut fx, Step::ExitSearch);
        fx
    }

    /// Gives the search up.
    pub fn cancel_search(&mut self, term: &TermView) -> (r: Vec<Effect>)
        requires
            term.mode.vi ==> term.wf(),
        ensures
            old(self).search_step(old(self).search_state@.cancelled(*term), *final(self), r),
    {
        let mut fx = effect::none();
        effect::step(&mut fx, Step::CancelTerminalSearch);
        if term.mode.vi {
            let more = self.search_state.reset(term);
            effect::extend(&mut fx, more);
        } else if let Some(focused_match) = self.search_state.focused_match {
            effect::step(&mut fx, Step::SelectMatch(focused_match));
        }
        effect::step(&mut fx, Step::ExitSearch);
        assert(effect::values(fx) =~= old(self).search_state@.cancelled(*term).effects);
        fx
    }

    /// Selects a match, from its first to its last visible cell.
    pub fn select_match(&self, start: Point, end: Point, term: &TermView) -> (r: Vec<Effect>)
        requires
            term.wf(),
        ensures
            effect::values(r) == selection_start(SelectionType::Simple, start, Direction::Left)
                + selection_update(selecting(*term), self.searching(), end, Direction::Right),
    {
        let mut fx = start_selection(SelectionType::Simple, start, Direction::Left);
        let started = TermView {
            selection: Some(SelectionView { ty: SelectionType::Simple, is_empty: true }),
            ..*term
        };
        let more = self.update_selection(end, Direction::Right, &started);
        effect::extend(&mut fx, more);
        fx
    }

    /// Follows up a change of the text that is searched for.
    pub fn update_search(&mut self, term: &TermView) -> (r: Vec<Effect>)
        requires
            old(self).search_state@.can_update(*term),
        ensures
            old(self).search_step(
                old(self).search_state@.updated(old(self).config.hide_when_typing, *term),
                *final(self),
                r,
            ),
    {
        let ghost wanted = self.search_state@.updated(self.config.hide_when_typing, *term);
        let mut fx = effect::none();
        let empty = match &self.search_state.regex {
            Some(regex) => regex.as_str().is_empty(),
            None => {
                return fx;
            },
        };
        if self.config.hide_when_typing {
            effect::step(&mut fx, Step::SetMouseVisible(false));
        }
        if empty {
            let more = self.search_state.reset(term);
            effect::extend(&mut fx, more);
            effect::step(&mut fx, Step::CancelTerminalSearch);
            if !term.mode.vi {
                let direction = self.search_state.direction;
                let more = self.start_search(direction, term);
                effect::extend(&mut fx, more);
            }
            effect::step(&mut fx, Step::MarkDirty);
            assert(effect::values(fx) =~= wanted.effects);
        } else {
            if let Some(regex) = &self.search_state.regex {
                effect::emit(&mut fx, Effect::StartTerminalSearch(regex.clone()));
            }
            effect::step(
                &mut fx,
                Step::GotoMatch(Some(crate::search::MAX_SEARCH_WHILE_TYPING)),
            );
            effect::step(&mut fx, Step::MarkDirty);
            assert(effect::values(fx) =~= wanted.effects);
        }
        fx
    }

    /// The search after its text has become `regex`.
    pub open spec fn retyped(self, regex: Seq<char>, term: TermView) -> SearchOutcome {
        (SearchView { regex: Some(regex), ..self.search_state@ }).updated(
            self.config.hide_when_typing,
            term,
        )
    }

    /// Adds a character to the text that is searched for. Outside of vi mode the selection is
    /// dropped, so that it does not obstruct any matches.
    pub fn push_search(&mut self, c: char, term: &TermView) -> (r: Vec<Effect>)
        ensures
            old(self).searching() ==> ({
                let typed = old(self).retyped(old(self).search_state@.regex->0.push(c), *term);
                old(self).search_step(
                    SearchOutcome {
                        effects: (if term.mode.vi {
                            Seq::empty()
                        } else {
                            seq![effect::act(Step::DropSelection)]
                        }) + typed.effects,
                        ..typed
                    },
                    *final(self),
                    r,
                )
            }),
            !old(self).searching() ==> *final(self) == *old(self) && effect::values(r).len() == 0,
    {
        let mut fx = effect::none();
        if let Some(regex) = &self.search_state.regex {
            if !term.mode.vi {
                effect::step(&mut fx, Step::DropSelection);
            }
            let mut typed = regex.clone();
            typed.push(c);
            self.search_state.regex = Some(typed);
            let more = self.update_search(term);
            effect::extend(&mut fx, more);
            proof {
                let typed = old(self).retyped(old(self).search_state@.regex->0.push(c), *term);
                assert(effect::values(fx) =~= (if term.mode.vi {
                    Seq::empty()
                } else {
                    seq![effect::act(Step::DropSelection)]
                }) + typed.effects);
            }
        }
        fx
    }

    /// Takes the last character off the text that is searched for.
    pub fn pop_search(&mut self, term: &TermView) -> (r: Vec<Effect>)
        requires
            old(self).searching() ==> (SearchView {
                regex: Some(shortened(old(self).search_state@.regex->0)),
                ..old(self).search_state@
            }).can_update(*term),
        ensures
            old(self).searching() ==> old(self).search_step(
                old(self).retyped(shortened(old(self).search_state@.regex->0), *term),
                *final(self),
                r,
            ),
            !old(self).searching() ==> *final(self) == *old(self) && effect::values(r).len() == 0,
    {
        if let Some(regex) = &self.search_state.regex {
            let typed = text::drop_last_char(regex);
            self.search_state.regex = Some(typed);
            self.update_search(term)
        } else {
            effect::none()
        }
    }

    /// Takes the last word off the text that is searched for.
    pub fn pop_word_search(&mut self, term: &TermView) -> (r: Vec<Effect>)
        requires
            old(self).searching() ==> (SearchView {
                regex: Some(text::without_last_word(old(self).search_state@.regex->0)),
                ..old(self).search_state@
            }).can_update(*term),
        ensures
            old(self).searching() ==> old(self).search_step(
                old(self).retyped(
                    text::without_last_word(old(self).search_state@.regex->0),
                    *term,
                ),
                *final(self),
                r,
            ),
            !old(self).searching() ==> *final(self) == *old(self) && effect::values(r).len() == 0,
    {
        if let Some(regex) = &self.search_state.regex {
            let typed = text::drop_last_word(regex);
            self.search_state.regex = Some(typed);
            self.update_search(term)
        } else {
            effect::none()
        }
    }

    /// The search for the first match from the origin, if text is searched for.
    pub fn goto_match(&self, limit: Option<usize>, term: &TermView) -> (r: Option<MatchQuery>)
        requires
            term.wf(),
        ensures
            r == self.search_state@.query(limit, *term),
    {
        if !self.search_active() {
            return None;
        }
        let limit: Option<usize> = match limit {
            Some(lines) => if lines <= term.total_lines {
                Some(lines)
            } else {
                None
            },
            None => None,
        };
        Some(
            MatchQuery {
                origin: term.clamped(self.search_state.origin),
                line_delta: self.search_state.display_offset_delta,
                direction: self.search_state.direction,
                limit,
            },
        )
    }

    /// The search origin, as the nearest cell that is visible.
    pub fn visible_origin(&self, term: &TermView) -> (r: Point)
        requires
            term.wf(),
        ensures
            r == term.clamp(self.search_state.origin),
    {
        term.clamped(self.search_state.origin)
    }

    /// Get the absolute position of the search origin, from the place of the visible origin in
    /// the buffer.
    ///
    /// This takes the relative motion of the viewport since the start of the search into account.
    /// So while the absolute point of the origin might have changed since new content was printed,
    /// this will still return the correct absolute position.
    pub fn absolute_origin(&self, origin: BufferPoint) -> (r: BufferPoint)
        requires
            origin.line <= isize::MAX,
            0 <= origin.line + self.search_state.display_offset_delta <= isize::MAX,
        ensures
            r.line == origin.line + self.search_state.display_offset_delta,
            r.col == origin.col,
    {
        BufferPoint {
            line: (origin.line as isize + self.search_state.display_offset_delta) as usize,
            col: origin.col,
        }
    }

    /// How a match is brought into view: by the vi mode cursor, or by scrolling.
    pub fn match_step(found: &BufferRange, term: &TermView) -> (r: Step)
        ensures
            r == if term.mode.vi {
                Step::ViGotoPoint(found.start)
            } else {
                Step::ScrollToPoint(found.start)
            },
    {
        if term.mode.vi {
            Step::ViGotoPoint(found.start)
        } else {
            Step::ScrollToPoint(found.start)
        }
    }

    /// Puts a match into focus that has been brought into view.
    pub fn goto_match_found(&mut self, found: BufferRange, old_offset: usize, new_offset: usize)
        -> (r: Vec<Effect>)
        requires
            old_offset <= isize::MAX,
            new_offset <= isize::MAX,
            isize::MIN <= old(self).search_state.display_offset_delta + old_offset - new_offset
                <= isize::MAX,
        ensures
            old(self).search_step(
                old(self).search_state@.found(found, old_offset as int, new_offset as int),
                *final(self),
                r,
            ),
    {
        self.search_state.focused_match = Some(found);
        let change: isize = old_offset as isize - new_offset as isize;
        self.search_state.display_offset_delta = self.search_state.display_offset_delta + change;
        let mut fx = effect::none();
        effect::step(&mut fx, Step::Unschedule(TimerId::DelayedSearch));
        fx
    }

    /// Takes note that nothing was found. The view goes back only when there is no match at all,
    /// to prevent unnecessary jumping.
    pub fn goto_match_missing(
        &mut self,
        limit: Option<usize>,
        delayed_search_scheduled: bool,
        term: &TermView,
    ) -> (r: Vec<Effect>)
        requires
            limit is None ==> term.wf(),
        ensures
            old(self).search_step(
                old(self).search_state@.missed(limit, delayed_search_scheduled, *term),
                *final(self),
                r,
            ),
    {
        if limit.is_none() {
            self.search_state.reset(term)
        } else {
            let mut fx = effect::none();
            if !delayed_search_scheduled {
                effect::step(&mut fx, Step::ScheduleDelayedSearch);
            }
            self.search_state.focused_match = None;
            fx
        }
    }

    /// The cell that the search origin moves to, right in front of the next match; the flag
    /// says that it is the cell before this one.
    pub fn advance_target(direction: Direction, found: &BufferRange) -> (r: (BufferPoint, bool))
        ensures
            r == (match direction {
                Direction::Right => (found.end, false),
                Direction::Left => (found.start, true),
            }),
    {
        match direction {
            Direction::Right => (found.end, false),
            Direction::Left => (found.start, true),
        }
    }

    /// Whether a search of the vi mode starts at the cell before the cursor; otherwise it starts
    /// at the one behind it.
    pub fn vi_search_starts_before(direction: Direction) -> (r: bool)
        ensures
            r == (direction is Left),
    {
        match direction {
            Direction::Right => false,
            Direction::Left => true,
        }
    }

    /// The cell of a match that a search of the vi mode goes to.
    pub fn vi_search_target(found: &BufferRange, to_end: bool) -> (r: BufferPoint)
        ensures
            r == if to_end {
                found.end
            } else {
                found.start
            },
    {
        if to_end {
            found.end
        } else {
            found.start
        }
    }

    /// Moves the search origin to a visible cell and searches again.
    pub fn advance_search_origin(&mut self, origin: Point, term: &TermView) -> (r: Vec<Effect>)
        requires
            (SearchView { origin, display_offset_delta: 0, ..old(self).search_state@ }).can_update(
                *term,
            ),
        ensures
            old(self).search_step(
                (SearchView {
                    origin,
                    display_offset_delta: 0,
                    ..old(self).search_state@
                }).updated(old(self).config.hide_when_typing, *term),
                *final(self),
                r,
            ),
    {
        self.search_state.origin = origin;
        self.search_state.display_offset_delta = 0;
        self.update_search(term)
    }

    /// Cleanup the search state.
    pub fn exit_search(&mut self, term: &TermView) -> (r: Vec<Effect>)
        requires
            term.history_size != 0 && term.display_offset == 0 ==> term.vi_cursor.line.0
                < usize::MAX,
        ensures
            old(self).search_step(old(self).search_state@.exited(*term), *final(self), r),
    {
        let mut fx = effect::none();
        if term.history_size != 0 && term.display_offset == 0 && term.screen_lines
            > term.vi_cursor.line.0 + 1 {
            let line = Line(term.vi_cursor.line.0 + 1);
            effect::step(&mut fx, Step::SetViCursor(Point::new(line, term.vi_cursor.col)));
        }
        self.display_update_pending = true;
        self.search_state.regex = None;
        effect::step(&mut fx, Step::MarkDirty);
        self.search_state.focused_match = None;
        fx
    }
}

/// The text without its last character.
pub open spec fn shortened(s: Seq<char>) -> Seq<char> {
    if s.len() > 0 {
        s.drop_last()
    } else {
        s
    }
}

/// Typing a character into a search and taking it off again leaves the text, the direction and
/// the origin of the search as they were.
pub proof fn law_pop_undoes_push(ctx: ActionContext, c: char, term: TermView)
    requires
        ctx.searching(),
        ctx.search_state@.regex->0.len() > 0,
    ensures
        ({
            let text = ctx.search_state@.regex->0;
            let typed = ctx.retyped(text.push(c), term).state;
            let popped = (SearchView { regex: Some(shortened(typed.regex->0)), ..typed }).updated(
                ctx.config.hide_when_typing,
                term,
            ).state;
            popped == ctx.search_state@
        }),
{
    let text = ctx.search_state@.regex->0;
    assert(shortened(text.push(c)) =~= text);
}

/// A search that is reset shows the terminal as it was when the search began, at the offset
/// `start`, however often the view was moved: what is counted is the distance to that offset, and
/// the reset scrolls by it.
pub proof fn law_reset_undoes_moves(
    state: SearchView,
    found: BufferRange,
    start: int,
    old: int,
    new: int,
    term: TermView,
)
    requires
        start == state.display_offset_delta + old,
        0 <= start <= isize::MAX,
        0 <= new <= isize::MAX,
    ensures
        state.found(found, old, new).state.display_offset_delta + new == start,
        state.found(found, old, new).state.reset(term).effects[0] == effect::act(
            Step::ScrollDisplay(Scroll::Delta((start - new) as isize)),
        ),
        state.found(found, old, new).state.reset(term).state.display_offset_delta == 0,
{
}

/// The font never gets smaller than the smallest size, and a step up undoes a step down unless
/// that size was reached.
pub proof fn law_font_steps(size: int)
    requires
        FONT_SIZE_STEP <= size <= i16::MAX,
    ensures
        changed_font_size(size, -FONT_SIZE_STEP) >= FONT_SIZE_STEP,
        size > FONT_SIZE_STEP ==> changed_font_size(
            changed_font_size(size, -FONT_SIZE_STEP),
            FONT_SIZE_STEP as int,
        ) == size,
{
}

} // verus!
