//! Laws of single calls, and of calls that follow one another.
//!
//! `call_ensures(f, args, given)` says that a call of `f` with `args` can give `given` back: such a
//! law holds of every call.
use crate::child_pty::{ReadAction, Winsize};
use crate::clipboard::Clipboard;
use crate::config::Config;
use crate::context::{ActionContext, ClickState};
use crate::effect::{Effect, EffectView, Step, TimerId};
use crate::event;
use crate::event::{
    ConfigChanges, ControlFlow, Event, Finish, HostEvent, TerminalEvent, Turn,
};
use crate::index::{BufferPoint, BufferRange, Column, Direction, Point};
use crate::input::Processor;
use crate::laws;
use crate::laws::report;
use crate::laws::selection;
use crate::search::SearchState;
use crate::tab_manager::{Resized, Tab, TabManager, TabRequest};
use crate::term::{
    ClipboardType, CursorIcon, ElementState, HostView, ModifiersState, MouseButton, Platform,
    Scroll, SelectionType, SizeInfo, TermMode, TermView, TouchPhase,
};
use crate::wheel::{WheelAction, WheelDelta};
use crate::word::{RenderableCell, Url, Word};
use std::sync::Arc;
use vstd::prelude::*;

verus! {

/// A search that is started in vi mode begins at the vi mode cursor, whatever its direction. To
/// reset it on the same terminal puts the cursor back into that cell.
pub proof fn law_started_vi_search(
    ctx: &mut ActionContext,
    direction: Direction,
    term: TermView,
    started: Vec<Effect>,
    state: &mut SearchState,
    reset: Vec<Effect>,
)
    requires
        term.mode.vi,
        call_ensures(ActionContext::start_search, (ctx, direction, &term), started),
        *old(state) == final(ctx).search_state,
        call_ensures(SearchState::reset, (state, &term), reset),
    ensures
        final(ctx).search_state@.origin == term.vi_cursor,
        final(ctx).search_state@.direction == direction,
        term.vi_cursor.line.0 < term.screen_lines && term.vi_cursor.col.0 < term.cols
            ==> laws::does(crate::effect::values(reset), Step::SetViCursor(term.vi_cursor)),
{
    laws::search::law_vi_search_begins_at_the_cursor(old(ctx).search_state@, direction, term, None);
}

/// A left press that makes a triple click selects lines, one that makes a double click a word, and
/// a single click a block with Ctrl and cells without, from the clicked cell on.
pub proof fn law_left_press(
    processor: &mut Processor,
    now: u64,
    point: Point,
    cell: Point,
    term: TermView,
    given: Vec<Effect>,
)
    requires
        term.screen_lines >= 1,
        !selection::program_has_buttons(old(processor).ctx, term.mode),
        selection::on_screen(term, point, cell),
        call_ensures(
            Processor::on_mouse_press,
            (processor, MouseButton::Left, now, point, &term),
            given,
        ),
    ensures
        ({
            let effects = crate::effect::values(given);
            let side = old(processor).ctx.mouse.cell_side;
            let ty = match final(processor).ctx.mouse.click_state {
                ClickState::TripleClick => SelectionType::Lines,
                ClickState::DoubleClick => SelectionType::Semantic,
                _ => if old(processor).ctx.modifiers.ctrl {
                    SelectionType::Block
                } else {
                    SelectionType::Simple
                },
            };
            &&& laws::does(effects, Step::StartSelection(ty, cell, side))
            &&& !(final(processor).ctx.mouse.click_state is NoClick)
        }),
{
    selection::law_left_clicks_select_more_and_more(
        old(processor).ctx,
        final(processor).ctx,
        now,
        point,
        cell,
        term,
    );
}

/// Where a program gets the mouse, a turn down by some lines is reported by as many reports of
/// button 65, and a turn up by as many of button 64. The two are told apart by every report.
pub proof fn law_turned_wheel(
    processor: Processor,
    mode: TermMode,
    lines: isize,
    up: Vec<Effect>,
    down: Vec<Effect>,
)
    requires
        mode.mouse_mode && !mode.vi,
        report::within_reach(processor.ctx.mouse, mode),
        call_ensures(Processor::scroll_terminal, (&processor, true, lines, &mode), up),
        call_ensures(Processor::scroll_terminal, (&processor, false, lines, &mode), down),
    ensures
        ({
            let (ups, downs) = (crate::effect::values(up), crate::effect::values(down));
            let keys = report::held_keys(processor.ctx.modifiers);
            &&& ups.len() == report::distance(lines)
            &&& downs.len() == report::distance(lines)
            &&& forall|i: int|
                0 <= i < ups.len() ==> (#[trigger] ups[i]) is WriteToPty && report::tells_button(
                    ups[i]->WriteToPty_0,
                    64 + keys,
                    mode,
                )
            &&& forall|i: int|
                0 <= i < downs.len() ==> (#[trigger] downs[i]) is WriteToPty
                    && report::tells_button(downs[i]->WriteToPty_0, 65 + keys, mode)
            &&& forall|i: int, j: int|
                0 <= i < ups.len() && 0 <= j < downs.len() ==> #[trigger] ups[i]
                    != #[trigger] downs[j]
        }),
{
    report::law_wheel_is_reported_by_direction(processor.ctx, mode, lines);
}

/// To close the selected tab selects the tab that stood right behind it, in the place of the closed
/// one, where that is not the last one left; otherwise a neighbour of the closed tab is selected.
pub proof fn law_closed_tab<E, C, P, T, F: FnOnce(TabRequest, &C, &E) -> Tab<P, T>>(
    tm: &mut TabManager<E, C, P, T>,
    spawn: F,
    closed: usize,
)
    requires
        old(tm).selected_tab == Some(closed),
        closed < old(tm).tabs@.len(),
        old(tm).tabs@.len() > 1,
        call_ensures(TabManager::<E, C, P, T>::remove_selected_tab::<F>, (tm, spawn), ()),
    ensures
        final(tm).tabs@ == old(tm).tabs@.remove(closed as int),
        closed < final(tm).tabs@.len() - 1 ==> final(tm).selected_tab == Some(closed)
            && final(tm).tabs@[closed as int] == old(tm).tabs@[closed + 1],
        closed >= final(tm).tabs@.len() - 1 && closed > 0 ==> final(tm).selected_tab == Some(
            (closed - 1) as usize,
        ),
        closed == 0 ==> final(tm).selected_tab == Some(0usize),
{
    laws::tabs::law_closing_selects_a_neighbour(*old(tm), *final(tm), closed);
}

/// New content, a request to draw and a blink have the display drawn, in every state.
pub proof fn law_drawn_events(
    processor: &mut Processor,
    event: HostEvent,
    term: TermView,
    host: HostView,
    given: Vec<Effect>,
)
    requires
        event is RedrawRequested || event == HostEvent::UserEvent(Event::BlinkCursor) || event
            == HostEvent::UserEvent(Event::TerminalEvent(TerminalEvent::Wakeup)),
        call_ensures(Processor::handle_event, (processor, event, &term, &host), given),
    ensures
        laws::does(crate::effect::values(given), Step::MarkDirty),
{
    laws::events::law_new_content_is_drawn(*old(processor), term, host);
}

/// A search that is confirmed is left last of all. Where a search without a limit was still due, it
/// is done first, so that the match is known.
pub proof fn law_confirmed_search(ctx: ActionContext, due: bool, given: Vec<Effect>)
    requires
        call_ensures(ActionContext::confirm_search, (&ctx, due), given),
    ensures
        ({
            let effects = crate::effect::values(given);
            &&& due ==> effects == seq![
                EffectView::Do(Step::GotoMatch(None)),
                EffectView::Do(Step::ExitSearch),
            ]
            &&& !due ==> effects == seq![EffectView::Do(Step::ExitSearch)]
        }),
{
}

/// The cursor blinks where it is to blink and the terminal has the focus: then its timer starts
/// anew. Otherwise the timer ends, and the cursor is shown and drawn.
pub proof fn law_updated_blinking(
    ctx: &mut ActionContext,
    term: TermView,
    terminal: bool,
    given: Vec<Effect>,
)
    requires
        call_ensures(ActionContext::update_cursor_blinking, (ctx, &term, terminal), given),
    ensures
        ({
            let effects = crate::effect::values(given);
            let blinks = crate::context::cursor_blinks(old(ctx).config, term.mode.vi, terminal)
                && term.is_focused;
            &&& effects.len() == 2
            &&& effects[0] == EffectView::Do(Step::Unschedule(TimerId::BlinkCursor))
            &&& blinks ==> effects[1] == EffectView::Do(
                Step::ScheduleBlink(old(ctx).config.blink_interval),
            ) && *final(ctx) == *old(ctx)
            &&& !blinks ==> effects[1] == EffectView::Do(Step::MarkDirty)
            &&& !blinks ==> !final(ctx).cursor_hidden
            &&& *final(ctx) == (ActionContext {
                cursor_hidden: final(ctx).cursor_hidden,
                ..*old(ctx)
            })
        }),
{
}

/// An address is opened by the configured program, as its last argument, unless there is none or
/// the mouse has blocked it.
pub proof fn law_launched_address(ctx: ActionContext, address: String, given: Vec<Effect>)
    requires
        call_ensures(ActionContext::launch_url, (&ctx, address), given),
    ensures
        ({
            let effects = crate::effect::values(given);
            let opens = !ctx.mouse.block_url_launcher && ctx.config.url_launcher is Some;
            &&& !opens ==> effects.len() == 0
            &&& opens ==> {
                let launcher = ctx.config.url_launcher->0.deep_view();
                &&& effects.len() == 1
                &&& effects[0] is StartDaemon
                &&& effects[0]->StartDaemon_0.program == launcher.program
                &&& effects[0]->StartDaemon_0.args == launcher.args.push(address@)
            }
        }),
{
}

/// After a change of the view the vi mode cursor is on the nearest line, in its column. A selection
/// that it had in vi mode goes along to its cell, included.
pub proof fn law_kept_cursor(
    ctx: ActionContext,
    nearest: Point,
    col: Column,
    was_vi: bool,
    had_selection: bool,
    term: TermView,
    cell: Point,
    given: Vec<Effect>,
)
    requires
        term.screen_lines >= 1,
        selection::on_screen(term, Point { line: nearest.line, col }, cell),
        call_ensures(
            ActionContext::keep_vi_cursor,
            (&ctx, nearest, col, was_vi, had_selection, &term),
            given,
        ),
    ensures
        ({
            let effects = crate::effect::values(given);
            &&& effects.len() > 0
            &&& effects[0] == EffectView::Do(
                Step::SetViCursor(Point { line: nearest.line, col }),
            )
            &&& was_vi && had_selection && term.selection is Some ==> effects.len() > 1
                && effects[1] == EffectView::Do(Step::ExtendSelection(cell, Direction::Right))
            &&& !(was_vi && had_selection && term.selection is Some) ==> effects.len() == 1
        }),
{
    selection::law_selection_extends_to_the_cell(
        term,
        ctx.searching(),
        Point { line: nearest.line, col },
        Direction::Right,
        cell,
    );
}

/// A match is selected from the left of its first cell to the right of its last.
pub proof fn law_match_is_selected(
    ctx: ActionContext,
    start: Point,
    end: Point,
    cell: Point,
    term: TermView,
    given: Vec<Effect>,
)
    requires
        term.screen_lines >= 1,
        selection::on_screen(term, end, cell),
        call_ensures(ActionContext::select_match, (&ctx, start, end, &term), given),
    ensures
        ({
            let effects = crate::effect::values(given);
            &&& effects.len() > 2
            &&& effects[0] == EffectView::Do(
                Step::StartSelection(SelectionType::Simple, start, Direction::Left),
            )
            &&& effects[2] == EffectView::Do(Step::ExtendSelection(cell, Direction::Right))
        }),
{
    selection::law_selection_extends_to_the_cell(
        crate::context::selecting(term),
        ctx.searching(),
        end,
        Direction::Right,
        cell,
    );
}

/// The start of a match is gone to: by the cursor in vi mode, and by the view otherwise.
pub proof fn law_match_is_gone_to(found: BufferRange, term: TermView, given: Step)
    requires
        call_ensures(ActionContext::match_step, (&found, &term), given),
    ensures
        term.mode.vi ==> given == Step::ViGotoPoint(found.start),
        !term.mode.vi ==> given == Step::ScrollToPoint(found.start),
{
}

/// The search for another match goes on behind the end of this one when it leads forwards, and in
/// front of its start when it leads backwards.
pub proof fn law_search_goes_on(
    direction: Direction,
    found: BufferRange,
    given: (BufferPoint, bool),
    starts_before: bool,
)
    requires
        call_ensures(ActionContext::advance_target, (direction, &found), given),
        call_ensures(ActionContext::vi_search_starts_before, (direction,), starts_before),
    ensures
        direction is Right ==> given.0 == found.end && !given.1,
        direction is Left ==> given.0 == found.start && given.1,
        starts_before == given.1,
{
}

/// In vi mode the cursor goes to the start of a match, or to its end where this was asked for.
pub proof fn law_end_of_a_match(found: BufferRange, to_end: bool, given: BufferPoint)
    requires
        call_ensures(ActionContext::vi_search_target, (&found, to_end), given),
    ensures
        to_end ==> given == found.end,
        !to_end ==> given == found.start,
{
}

/// The absolute place of the origin is as many lines further up as the view has moved since.
pub proof fn law_absolute_origin(ctx: ActionContext, origin: BufferPoint, given: BufferPoint)
    requires
        call_ensures(ActionContext::absolute_origin, (&ctx, origin), given),
    ensures
        given.line - origin.line == ctx.search_state.display_offset_delta,
        given.col == origin.col,
{
}

/// A character that is typed into a search comes behind its text. Outside of vi mode the selection
/// is dropped first. Without a search nothing happens.
pub proof fn law_character_is_searched_for(
    ctx: &mut ActionContext,
    c: char,
    term: TermView,
    given: Vec<Effect>,
)
    requires
        call_ensures(ActionContext::push_search, (ctx, c, &term), given),
    ensures
        ({
            let effects = crate::effect::values(given);
            let before = old(ctx).search_state@;
            &&& before.regex is None ==> *final(ctx) == *old(ctx) && effects.len() == 0
            &&& before.regex matches Some(text) ==> {
                &&& final(ctx).search_state@.regex == Some(text.push(c))
                &&& effects.contains(EffectView::StartTerminalSearch(text.push(c)))
                &&& laws::does(effects, Step::DropSelection) <==> !term.mode.vi
                &&& !term.mode.vi ==> effects[0] == EffectView::Do(Step::DropSelection)
            }
        }),
{
    let effects = crate::effect::values(given);
    let before = old(ctx).search_state@;
    if before.regex is Some {
        let text = before.regex->0.push(c);
        laws::search::law_typed_text_is_searched_for(*old(ctx), text, term);
        assert(effects[effects.len() - 3] == EffectView::StartTerminalSearch(text));
        if !term.mode.vi {
            laws::lemma_does(effects, 0, Step::DropSelection);
        }
    }
}

/// To delete a character or a word of a search deletes it from the end of the text; without a search
/// nothing happens.
pub proof fn law_search_text_is_shortened(
    ctx: &mut ActionContext,
    other: &mut ActionContext,
    term: TermView,
    given: Vec<Effect>,
    word: Vec<Effect>,
)
    requires
        call_ensures(ActionContext::pop_search, (ctx, &term), given),
        call_ensures(ActionContext::pop_word_search, (other, &term), word),
    ensures
        old(ctx).search_state@.regex is None ==> *final(ctx) == *old(ctx)
            && crate::effect::values(given).len() == 0,
        old(other).search_state@.regex is None ==> *final(other) == *old(other)
            && crate::effect::values(word).len() == 0,
        old(ctx).search_state@.regex matches Some(text) ==> final(ctx).search_state@.regex == Some(
            if text.len() > 0 {
                text.drop_last()
            } else {
                text
            },
        ),
        old(other).search_state@.regex matches Some(text) ==> final(other).search_state@.regex
            == Some(crate::text::without_last_word(text)),
{
}

/// The view that scrolls during a search counts how far it went, to go back later; outside of a
/// search nothing is counted.
pub proof fn law_scrolls_are_counted(
    ctx: &mut ActionContext,
    offset: usize,
    term: TermView,
    pointer: Point,
    given: Vec<Effect>,
)
    requires
        call_ensures(ActionContext::scroll, (ctx, offset, &term, pointer), given),
        offset <= isize::MAX,
        term.display_offset <= isize::MAX,
        isize::MIN <= old(ctx).search_state.display_offset_delta + offset - term.display_offset
            <= isize::MAX,
    ensures
        old(ctx).search_state@.regex is Some ==> final(ctx).search_state.display_offset_delta
            + term.display_offset == old(ctx).search_state.display_offset_delta + offset,
        old(ctx).search_state@.regex is None ==> *final(ctx) == *old(ctx),
        final(ctx).mouse == old(ctx).mouse,
        final(ctx).search_state.origin == old(ctx).search_state.origin,
        crate::effect::values(given) == old(ctx).scrolled(term, pointer),
{
}

/// A search that begins anew at another cell looks for the same text in the same direction, from
/// this cell.
pub proof fn law_advanced_search(
    ctx: &mut ActionContext,
    origin: Point,
    term: TermView,
    given: Vec<Effect>,
)
    requires
        old(ctx).search_state@.regex matches Some(text) && text.len() > 0,
        call_ensures(ActionContext::advance_search_origin, (ctx, origin, &term), given),
    ensures
        ({
            let (before, after) = (old(ctx).search_state@, final(ctx).search_state@);
            &&& after.origin == origin
            &&& after.display_offset_delta == 0
            &&& after.regex == before.regex
            &&& after.direction == before.direction
            &&& crate::effect::values(given).contains(
                EffectView::StartTerminalSearch(before.regex->0),
            )
        }),
{
    let effects = crate::effect::values(given);
    assert(effects[effects.len() - 3] == EffectView::StartTerminalSearch(
        old(ctx).search_state@.regex->0,
    ));
}

/// A font size that is changed is set and drawn: by the given amount where it stays within its
/// bounds, and to the configured size by a reset. Nothing else changes.
pub proof fn law_font_sizes(
    changed: &mut ActionContext,
    delta: i16,
    reset: &mut ActionContext,
    given: Vec<Effect>,
    again: Vec<Effect>,
)
    requires
        call_ensures(ActionContext::change_font_size, (changed, delta), given),
        call_ensures(ActionContext::reset_font_size, (reset,), again),
    ensures
        1 <= old(changed).font_size + delta <= i16::MAX ==> final(changed).font_size == old(
            changed,
        ).font_size + delta,
        final(changed).font_size >= 1,
        final(reset).font_size == old(reset).config.font_size,
        *final(changed) == (ActionContext {
            font_size: final(changed).font_size,
            ..*old(changed)
        }),
        *final(reset) == (ActionContext { font_size: final(reset).font_size, ..*old(reset) }),
        crate::effect::values(given) == seq![
            EffectView::Do(Step::SetFont(final(changed).font_size)),
            EffectView::Do(Step::MarkDirty),
        ],
        crate::effect::values(again) == seq![
            EffectView::Do(Step::SetFont(final(reset).font_size)),
            EffectView::Do(Step::MarkDirty),
        ],
{
}

/// A message is taken down where there is one, and then the display is laid out anew.
pub proof fn law_taken_down_message(ctx: &mut ActionContext, none: bool, given: Vec<Effect>)
    requires
        call_ensures(ActionContext::pop_message, (ctx, none), given),
    ensures
        none ==> crate::effect::values(given).len() == 0 && *final(ctx) == *old(ctx),
        !none ==> crate::effect::values(given) == seq![EffectView::Do(Step::PopMessage)]
            && final(ctx).display_update_pending,
{
}

/// Typing shows a cursor that blinks, and leaves another one as it is; nothing else changes.
pub proof fn law_started_typing(ctx: &mut ActionContext, blinking: bool, given: Vec<Effect>)
    requires
        call_ensures(ActionContext::on_typing_start, (ctx, blinking), given),
    ensures
        blinking ==> !final(ctx).cursor_hidden,
        !blinking ==> *final(ctx) == *old(ctx),
        *final(ctx) == (ActionContext { cursor_hidden: final(ctx).cursor_hidden, ..*old(ctx) }),
        crate::effect::values(given) == crate::context::typing_effects(old(ctx).config, blinking),
{
}

/// A turn of the wheel in lines scrolls at once. A motion on a touchpad scrolls while it moves and
/// counts anew when it starts; its end does nothing.
pub proof fn law_wheel_input(
    processor: Processor,
    delta: WheelDelta,
    phase: TouchPhase,
    given: WheelAction,
)
    requires
        call_ensures(Processor::mouse_wheel_input, (&processor, delta, phase), given),
    ensures
        delta is Lines ==> given is Scroll,
        delta is Pixels && phase is Moved ==> given is Scroll,
        delta is Pixels && phase is Started ==> given is Reset,
        delta is Pixels && (phase is Ended || phase is Cancelled) ==> given is Ignore,
{
}

/// A message that was taken down leaves the pointer with the shape of what is below it: where no
/// message is left, that is an arrow or a text cursor, but for a message of no lines.
pub proof fn law_popped_message(
    current: usize,
    left: Option<usize>,
    mode: TermMode,
    given: Vec<Effect>,
)
    requires
        call_ensures(Processor::message_popped, (current, left, &mode), given),
    ensures
        ({
            let effects = crate::effect::values(given);
            let program = mode.mouse_mode && !mode.vi;
            &&& effects.len() == 1
            &&& left is None && current > 0 && program ==> effects[0] == EffectView::Do(
                Step::SetMouseCursor(CursorIcon::Default),
            )
            &&& left is None && current > 0 && !program ==> effects[0] == EffectView::Do(
                Step::SetMouseCursor(CursorIcon::Text),
            )
            &&& left matches Some(lines) ==> effects[0] == EffectView::Do(
                Step::SetMouseCursor(crate::input::icon_after_message(current, lines, mode)),
            )
        }),
{
}

/// The shape of the pointer is that of what it is on.
pub proof fn law_reset_pointer(
    processor: Processor,
    term: TermView,
    host: HostView,
    url: Option<Url>,
    given: Vec<Effect>,
)
    requires
        call_ensures(Processor::reset_mouse_cursor, (&processor, &term, &host, url), given),
    ensures
        crate::effect::values(given) == seq![
            EffectView::Do(
                Step::SetMouseCursor(
                    crate::mouse::state_of(processor.ctx, term, host, url).icon(),
                ),
            ),
        ],
{
}

/// Held keys are noted, and the pointer is shown as they have it; nothing else changes.
pub proof fn law_held_keys_are_noted(
    processor: &mut Processor,
    modifiers: ModifiersState,
    term: TermView,
    host: HostView,
    url: Option<Url>,
    given: Vec<Effect>,
)
    requires
        call_ensures(
            Processor::modifiers_input,
            (processor, modifiers, &term, &host, url),
            given,
        ),
    ensures
        final(processor).ctx.modifiers == modifiers,
        *final(processor) == (Processor {
            ctx: ActionContext { modifiers, ..old(processor).ctx },
            ..*old(processor)
        }),
        crate::effect::values(given) == crate::mouse::pointer_effects(
            old(processor).highlighted_url,
            crate::mouse::state_of(final(processor).ctx, term, host, url),
        ),
{
}

/// A press below the tab bar types the word at the cell, without a blank in it. A release types
/// nothing, and neither does a press on the tab bar.
pub proof fn law_clicked_word(
    state: ElementState,
    cells: Vec<RenderableCell>,
    point: Point,
    given: Vec<Effect>,
)
    requires
        call_ensures(Processor::word_click, (state, &cells, point), given),
    ensures
        ({
            let effects = crate::effect::values(given);
            &&& state is Released || point.line.0 == 0 ==> effects.len() == 0
            &&& state is Pressed && point.line.0 >= 1 ==> effects.len() == 1
                && effects[0] is WriteToPty && exists|word: Seq<char>|
                {
                    &&& #[trigger] crate::word::is_word_at(
                        cells@,
                        Point {
                            line: crate::index::Line((point.line.0 - 1) as usize),
                            col: point.col,
                        },
                        word,
                    )
                    &&& effects[0] == EffectView::WriteToPty(vstd::utf8::encode_utf8(word))
                }
        }),
{
}

/// An address that is found at a point is one of the word's, and covers the point.
pub proof fn law_found_address(word: Word, point: Point, given: Option<Url>)
    requires
        call_ensures(Word::find_at, (&word, point), given),
    ensures
        given matches Some(url) ==> url.covers(point) && word.urls@.contains(url),
{
}

/// The child process of a tab sees one row less than the window has, which is the tab bar's, and
/// the same columns and pixels.
pub proof fn law_rows_of_the_child(size: Winsize, given: Winsize)
    requires
        size.ws_row >= 1,
        call_ensures(Winsize::below_tab_bar, (&size,), given),
    ensures
        given.ws_row + 1 == size.ws_row,
        given == (Winsize { ws_row: given.ws_row, ..size }),
{
}

/// A child process is told the name of the user twice, the home directory and the shell.
pub proof fn law_environment_of_the_child(name: &str, dir: &str, given: Vec<(String, String)>)
    requires
        call_ensures(crate::child_pty::child_environment, (name, dir), given),
    ensures
        given@.len() == 4,
        given@[0].0@ == "LOGNAME"@ && given@[0].1@ == name@,
        given@[1].0@ == "USER"@ && given@[1].1@ == name@,
        given@[2].0@ == "HOME"@ && given@[2].1@ == dir@,
        given@[3].0@ == "SHELL"@ && given@[3].1@ == "/bin/zsh"@,
{
}

/// What was read from a child process is fed to its terminal; where nothing was left to read it has
/// ended, and where reading failed it is tried again.
pub proof fn law_after_a_read<E>(result: Result<usize, E>, given: ReadAction)
    requires
        call_ensures(crate::child_pty::after_read::<E>, (&result,), given),
    ensures
        result matches Ok(count) ==> (given is Feed <==> count > 0) && (given is Close <==> count
            == 0),
        result is Err ==> given is Retry,
{
}

/// A pointer in the grid has the cell that it is on, and another one has none.
pub proof fn law_cell_of_the_pointer(inside: bool, cell: Point, given: Option<Point>)
    requires
        call_ensures(crate::context::mouse_coords, (inside, cell), given),
    ensures
        inside ==> given == Some(cell),
        !inside ==> given is None,
{
}

/// The cursor is at the bottom on the last line of the screen and nowhere else.
pub proof fn law_positions_at_the_bottom(
    processor: Processor,
    term: TermView,
    line: usize,
    given: (bool, bool),
)
    requires
        term.screen_lines >= 1,
        call_ensures(Processor::positions_at_bottom, (&processor, &term, line), given),
    ensures
        given.0 <==> line + 1 == term.screen_lines,
        term.mode.vi ==> (given.1 <==> term.vi_cursor.line.0 + 1 == term.screen_lines),
        !term.mode.vi ==> (given.1 <==> processor.ctx.search_state@.direction is Left),
{
}

/// The view moves for the bar of a search only when the search has just begun.
pub proof fn law_submitted_display(
    processor: Processor,
    searched: bool,
    offset: usize,
    cursor: bool,
    origin: bool,
    given: Vec<Effect>,
)
    requires
        call_ensures(
            Processor::submit_display_update,
            (&processor, searched, offset, cursor, origin),
            given,
        ),
    ensures
        ({
            let effects = crate::effect::values(given);
            let began = !searched && processor.ctx.search_state@.regex is Some;
            let up = began && offset == 0 && cursor && !origin;
            let down = began && offset > 0 && origin;
            &&& up ==> effects == seq![EffectView::Do(Step::ScrollDisplay(Scroll::Delta(1)))]
            &&& down ==> effects == seq![
                EffectView::Do(Step::ScrollDisplay(Scroll::Delta((-1) as isize))),
            ]
            &&& !up && !down ==> effects.len() == 0
        }),
{
}

/// New settings take the place of the old ones. The size of the display is computed anew where the
/// padding is another, and the font size changes as a reload has it; nothing else changes.
pub proof fn law_reloaded_settings(
    processor: &mut Processor,
    config: Config,
    changes: ConfigChanges,
    platform: Platform,
    given: Vec<Effect>,
)
    requires
        call_ensures(Processor::reload_config, (processor, config, changes, platform), given),
    ensures
        ({
            let (before, after) = (old(processor).ctx, final(processor).ctx);
            &&& after.config == config
            &&& changes.padding ==> after.display_update_pending
            &&& !changes.padding ==> after.display_update_pending == before.display_update_pending
            &&& changes.font && before.font_size == before.config.font_size ==> after.font_size
                == config.font_size
            &&& !changes.font || before.font_size != before.config.font_size ==> after.font_size
                == before.font_size
            &&& after == (ActionContext {
                config,
                font_size: after.font_size,
                display_update_pending: after.display_update_pending,
                ..before
            })
            &&& final(processor).highlighted_url == old(processor).highlighted_url
        }),
{
}

/// At first there is no event, no search and no address; no key is held, and the font has the
/// configured size.
pub proof fn law_new_processor(config: Config, now: u64, given: event::Processor)
    requires
        call_ensures(event::Processor::new, (config, now), given),
    ensures
        given.event_queue@.len() == 0,
        given.input.highlighted_url is None,
        given.input.ctx.search_state@.regex is None,
        !given.input.ctx.modifiers.shift && !given.input.ctx.modifiers.ctrl,
        !given.input.ctx.modifiers.alt && !given.input.ctx.modifiers.logo,
        given.input.ctx.received_count == 0,
        !given.input.ctx.suppress_chars && !given.input.ctx.cursor_hidden,
        !given.input.ctx.display_update_pending,
        given.input.ctx.font_size == config.font_size,
        given.input.ctx.config == config,
{
}

/// A cursor that blinks from the beginning is announced by one event.
pub proof fn law_started_loop(processor: &mut event::Processor, blinks: bool)
    requires
        call_ensures(event::Processor::start, (processor, blinks), ()),
    ensures
        blinks ==> final(processor).event_queue@ == old(processor).event_queue@
            + seq![
            HostEvent::UserEvent(
                Event::TerminalEvent(TerminalEvent::CursorBlinkingChange(true)),
            ),
        ],
        !blinks ==> final(processor).event_queue@ == old(processor).event_queue@,
        final(processor).input == old(processor).input,
{
}

/// An event is collected behind those that came before it, or not at all; none is lost or done at
/// once.
pub proof fn law_events_are_collected(
    processor: &mut event::Processor,
    arrived: HostEvent,
    given: Turn,
)
    requires
        call_ensures(event::Processor::run, (processor, arrived), given),
    ensures
        given is Poll ==> final(processor).event_queue@.len() == old(processor).event_queue@.len()
            + 1 && final(processor).event_queue@.last() == crate::event::remapped(arrived)
            && final(processor).event_queue@.drop_last() == old(processor).event_queue@,
        !(given is Poll) ==> final(processor).event_queue@ == old(processor).event_queue@,
        final(processor).input == old(processor).input,
        given == crate::event::turn(arrived),
{
    if given is Poll {
        assert(final(processor).event_queue@.drop_last() =~= old(processor).event_queue@);
    }
}

/// The events of the timers that are due come behind the others. The loop waits until the next
/// timer, or without an end where there is none, and there is something to do exactly where an
/// event is left.
pub proof fn law_updated_timers(
    processor: &mut event::Processor,
    due: Vec<HostEvent>,
    deadline: Option<u64>,
    frame_events: usize,
    given: (ControlFlow, bool),
)
    requires
        call_ensures(
            event::Processor::update_timers,
            (processor, due, deadline, frame_events),
            given,
        ),
    ensures
        final(processor).event_queue@ == old(processor).event_queue@ + due@,
        deadline matches Some(moment) ==> given.0 == ControlFlow::WaitUntil(moment),
        deadline is None ==> given.0 == ControlFlow::Wait,
        given.1 <==> final(processor).event_queue@.len() > 0 || frame_events > 0,
        final(processor).input == old(processor).input,
{
}

/// All collected events are handed out in order, and none is left. Whether a search was on is told,
/// and the layout of the display starts out as up to date.
pub proof fn law_taken_events(
    processor: &mut event::Processor,
    url: Option<Url>,
    given: (Vec<HostEvent>, bool),
)
    requires
        call_ensures(event::Processor::take_events, (processor, url), given),
    ensures
        given.0@ == old(processor).event_queue@,
        final(processor).event_queue@.len() == 0,
        given.1 <==> old(processor).input.ctx.search_state@.regex is Some,
        !final(processor).input.ctx.display_update_pending,
        final(processor).input.highlighted_url == url,
        final(processor).input.ctx == (ActionContext {
            display_update_pending: false,
            ..old(processor).input.ctx
        }),
{
}

/// The display is laid out where it changed or where this was asked for. It is drawn where it
/// changed, on Wayland only when a frame is due, and again at once while the bell is still shown.
pub proof fn law_finished_events(
    processor: &mut event::Processor,
    changed: bool,
    platform: Platform,
    should_draw: bool,
    dirty: bool,
    bell_completed: bool,
    given: Finish,
)
    requires
        call_ensures(
            event::Processor::finish,
            (processor, changed, platform, should_draw, dirty, bell_completed),
            given,
        ),
    ensures
        given.update_display <==> changed || old(processor).input.ctx.display_update_pending,
        !dirty ==> !given.draw,
        dirty && !(platform is Wayland) ==> given.draw,
        dirty && platform is Wayland ==> given.draw == should_draw,
        given.poll <==> given.draw && !bell_completed,
        given.poll ==> final(processor).event_queue@ == old(processor).event_queue@.push(
            HostEvent::UserEvent(Event::TerminalEvent(TerminalEvent::Wakeup)),
        ),
        !given.poll ==> final(processor).event_queue@ == old(processor).event_queue@,
        final(processor).input == old(processor).input,
{
}

/// A text that is stored is handed on as it is. What a clipboard holds is loaded as it is, and one
/// that cannot be read gives an empty text.
pub proof fn law_clipboards<E>(
    stored: &mut Clipboard,
    loaded: &mut Clipboard,
    ty: ClipboardType,
    text: String,
    contents: Result<String, E>,
    given: String,
    found: String,
)
    requires
        call_ensures(Clipboard::store, (stored, ty, text), given),
        call_ensures(Clipboard::load::<E>, (loaded, ty, contents), found),
    ensures
        given@ == text@,
        contents matches Ok(held) ==> found@ == held@,
        contents is Err ==> found@.len() == 0,
{
}

/// A window without tabs has nothing selected, no size and no titles, and does not end.
pub proof fn law_new_tabs<E, C, P, T>(proxy: E, config: C, given: TabManager<E, C, P, T>)
    requires
        call_ensures(TabManager::<E, C, P, T>::new, (proxy, config), given),
    ensures
        given.tabs@.len() == 0,
        given.selected_tab is None,
        given.size is None,
        !given.to_exit,
        given.current_working_directory_update is None,
        given.tab_titles@.len() == 0,
{
}

/// A new size is noted, and every tab is resized in order, its terminal before its process.
pub proof fn law_resized_tabs<E, C, P, T>(
    tm: &mut TabManager<E, C, P, T>,
    size: SizeInfo,
    given: Vec<Resized<P, T>>,
    tab: int,
)
    requires
        call_ensures(TabManager::<E, C, P, T>::resize, (tm, size), given),
        0 <= tab < old(tm).tabs@.len(),
    ensures
        final(tm).size == Some(size),
        final(tm).tabs@ == old(tm).tabs@,
        final(tm).selected_tab == old(tm).selected_tab,
        given@.len() == 2 * old(tm).tabs@.len(),
        given@[2 * tab] == Resized::<P, T>::Terminal(old(tm).tabs@[tab].terminal),
        given@[2 * tab + 1] == Resized::<P, T>::Pty(old(tm).tabs@[tab].pty),
{
}

/// A tab that is chosen is the selected one, and the tabs stay as they are.
pub proof fn law_chosen_tab<E, C, P, T>(
    tm: &mut TabManager<E, C, P, T>,
    tab: usize,
    given: Option<usize>,
)
    requires
        call_ensures(TabManager::<E, C, P, T>::select_tab, (tm, tab), given),
    ensures
        given == Some(tab),
        final(tm).selected_tab == Some(tab),
        final(tm).tabs@ == old(tm).tabs@,
{
}

/// A step to the next tab or to the previous one selects it and gives its terminal; the tabs stay
/// as they are.
pub proof fn law_steps_between_tabs<E, C, P, T>(
    forth: &mut TabManager<E, C, P, T>,
    back: &mut TabManager<E, C, P, T>,
    selected: usize,
    next: Arc<T>,
    previous: Arc<T>,
)
    requires
        old(forth).selected_tab == Some(selected),
        *old(back) == *old(forth),
        selected < old(forth).tabs@.len(),
        call_ensures(TabManager::<E, C, P, T>::select_next_tab, (forth,), next),
        call_ensures(TabManager::<E, C, P, T>::select_previous_tab, (back,), previous),
    ensures
        ({
            let tabs = old(forth).tabs@;
            let last = tabs.len() - 1;
            let after: int = if selected == last {
                0
            } else {
                selected + 1
            };
            let before: int = if selected == 0 {
                last
            } else {
                selected - 1
            };
            &&& final(forth).selected_tab == Some(after as usize) && next == tabs[after].terminal
            &&& final(back).selected_tab == Some(before as usize) && previous
                == tabs[before].terminal
            &&& final(forth).tabs@ == tabs && final(back).tabs@ == tabs
        }),
{
    assert(old(forth).tabs@.len() == old(forth).tabs.len());
    laws::tabs::law_neighbours(*old(forth), selected);
}

/// An opened tab stands right behind the one that was selected, is selected from then on, and its
/// terminal is given. The other tabs keep their order.
pub proof fn law_opened_tab<E, C, P, T, F: FnOnce(TabRequest, &C, &E) -> Tab<P, T>>(
    tm: &mut TabManager<E, C, P, T>,
    spawn: F,
    selected: usize,
    given: Arc<T>,
)
    requires
        old(tm).selected_tab == Some(selected),
        selected < old(tm).tabs@.len(),
        selected < usize::MAX,
        call_ensures(TabManager::<E, C, P, T>::open_tab::<F>, (tm, spawn), given),
    ensures
        final(tm).selected_tab == Some((selected + 1) as usize),
        final(tm).tabs@.len() == old(tm).tabs@.len() + 1,
        given == final(tm).tabs@[selected + 1].terminal,
        final(tm).tabs@.remove(selected + 1) == old(tm).tabs@,
{
    assert(final(tm).tabs@.remove(selected + 1) =~= old(tm).tabs@);
}

/// Every tab has a title, and the star is in front of the selected one, or of the first where none
/// is selected.
pub proof fn law_updated_titles<E, C, P, T>(
    tm: &mut TabManager<E, C, P, T>,
    titles: Vec<Option<String>>,
    tab: int,
)
    requires
        titles@.len() == old(tm).tabs@.len(),
        0 <= tab < titles@.len(),
        call_ensures(TabManager::<E, C, P, T>::update_tab_titles, (tm, &titles), ()),
    ensures
        ({
            let shown = final(tm).tab_titles@[tab]@;
            let marked = match old(tm).selected_tab {
                Some(selected) => tab == selected,
                None => tab == 0,
            };
            let plain = match titles@[tab] {
                Some(title) => crate::tab_manager::shown_title(title@),
                None => crate::tab_manager::shown_index(tab),
            };
            &&& final(tm).tab_titles@.len() == old(tm).tabs@.len()
            &&& marked ==> shown == seq!['*'] + plain
            &&& !marked ==> shown == plain
            &&& final(tm).tabs@ == old(tm).tabs@ && final(tm).selected_tab == old(tm).selected_tab
        }),
{
    laws::tabs::law_star_marks_the_selected_tab(
        crate::text::optional(titles@[tab]),
        tab,
        old(tm).selected_or_first(),
    );
}

} // verus!
