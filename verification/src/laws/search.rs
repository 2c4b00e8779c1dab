//! Laws of the search.
use crate::context::ActionContext;
use crate::effect::{EffectView, Step, TimerId};
use crate::index::{BufferRange, Direction, Line, Point};
use crate::laws;
use crate::search::SearchView;
use crate::term::{Scroll, TermView};
use vstd::prelude::*;

verus! {

/// A search that begins in vi mode has the vi mode cursor as its origin, whatever its direction:
/// the first query starts there, and a reset on the same terminal puts the cursor back there.
pub proof fn law_vi_search_begins_at_the_cursor(
    before: SearchView,
    direction: Direction,
    term: TermView,
    limit: Option<usize>,
)
    requires
        term.mode.vi,
    ensures
        before.started(direction, term).state.origin == term.vi_cursor,
        term.vi_cursor.line.0 < term.screen_lines && term.vi_cursor.col.0 < term.cols ==> {
            let state = before.started(direction, term).state;
            &&& state.query(limit, term) is Some
            &&& state.query(limit, term)->0.origin == term.vi_cursor
            &&& laws::does(state.reset(term).effects, Step::SetViCursor(term.vi_cursor))
        },
{
    let state = before.started(direction, term).state;
    if term.vi_cursor.line.0 < term.screen_lines && term.vi_cursor.col.0 < term.cols {
        laws::lemma_does(state.reset(term).effects, 1, Step::SetViCursor(term.vi_cursor));
    }
}

/// Outside of vi mode a search begins at an end of the screen: forwards in its first cell,
/// backwards in the last cell of the line above the one that the search bar takes.
pub proof fn law_search_begins_at_the_end_it_leads_away_from(before: SearchView, term: TermView)
    requires
        !term.mode.vi,
        term.screen_lines >= 2,
        term.cols >= 1,
    ensures
        ({
            let forwards = before.started(Direction::Right, term).state.origin;
            let backwards = before.started(Direction::Left, term).state.origin;
            &&& forwards.line.0 == 0 && forwards.col.0 == 0
            &&& backwards.line.0 + 2 == term.screen_lines
            &&& backwards.col.0 + 1 == term.cols
        }),
{
}

/// A search begins with an empty text, in the direction that was asked for, with nothing in focus
/// and no motion to undo, and makes room for its bar.
pub proof fn law_search_begins_anew(before: SearchView, direction: Direction, term: TermView)
    ensures
        ({
            let begun = before.started(direction, term);
            &&& begun.state.regex == Some(Seq::<char>::empty())
            &&& begun.state.direction == direction
            &&& begun.state.focused_match is None
            &&& begun.state.display_offset_delta == 0
            &&& begun.redisplay
            &&& laws::does(begun.effects, Step::MarkDirty)
            &&& begun.effects.len() == 1
        }),
{
    laws::lemma_does(before.started(direction, term).effects, 0, Step::MarkDirty);
}

/// Before any search there is none.
pub proof fn law_no_search_at_first()
    ensures
        SearchView::initial().regex is None,
        SearchView::initial().focused_match is None,
        SearchView::initial().display_offset_delta == 0,
        SearchView::initial().direction is Right,
        SearchView::initial().origin.line.0 == 0 && SearchView::initial().origin.col.0 == 0,
{
}

/// A reset scrolls back by what was counted, puts the vi mode cursor on the visible cell nearest
/// to the origin and forgets the search that was due later. The text, the direction and the origin
/// stay.
pub proof fn law_reset_recovers_the_view(state: SearchView, term: TermView, nearest: Point)
    requires
        term.screen_lines >= 1,
        term.cols >= 1,
        nearest.line.0 == if state.origin.line.0 < term.screen_lines {
            state.origin.line.0 as int
        } else {
            term.screen_lines - 1
        },
        nearest.col.0 == if state.origin.col.0 < term.cols {
            state.origin.col.0 as int
        } else {
            term.cols - 1
        },
    ensures
        ({
            let reset = state.reset(term);
            &&& laws::does(
                reset.effects,
                Step::ScrollDisplay(Scroll::Delta(state.display_offset_delta)),
            )
            &&& laws::does(reset.effects, Step::SetViCursor(nearest))
            &&& laws::does(reset.effects, Step::Unschedule(TimerId::DelayedSearch))
            &&& reset.effects.len() == 3
            &&& reset.state.regex == state.regex
            &&& reset.state.direction == state.direction
            &&& reset.state.origin == state.origin
            &&& reset.state.focused_match is None
            &&& reset.state.display_offset_delta == 0
            &&& !reset.redisplay
        }),
{
    let effects = state.reset(term).effects;
    assert(term.clamp(state.origin) == nearest);
    laws::lemma_does(
        effects,
        0,
        Step::ScrollDisplay(Scroll::Delta(state.display_offset_delta)),
    );
    laws::lemma_does(effects, 1, Step::SetViCursor(nearest));
    laws::lemma_does(effects, 2, Step::Unschedule(TimerId::DelayedSearch));
}

/// Text that is typed is searched for as it is: its matches are highlighted and the first one
/// within ten thousand lines is gone to, in this order. The search itself stays as it was.
pub proof fn law_typed_text_is_searched_for(ctx: ActionContext, text: Seq<char>, term: TermView)
    requires
        text.len() > 0,
    ensures
        ({
            let typed = ctx.retyped(text, term);
            let n = typed.effects.len();
            &&& n >= 3
            &&& typed.effects[n - 3] == EffectView::StartTerminalSearch(text)
            &&& typed.effects[n - 2] == EffectView::Do(Step::GotoMatch(Some(10000)))
            &&& typed.effects[n - 1] == EffectView::Do(Step::MarkDirty)
            &&& laws::does(typed.effects, Step::SetMouseVisible(false))
                <==> ctx.config.hide_when_typing
            &&& n == 3 <==> !ctx.config.hide_when_typing
            &&& !typed.redisplay
            &&& typed.state == (SearchView { regex: Some(text), ..ctx.search_state@ })
        }),
{
    let effects = ctx.retyped(text, term).effects;
    if ctx.config.hide_when_typing {
        laws::lemma_does(effects, 0, Step::SetMouseVisible(false));
    }
}

/// Where the text becomes empty the search goes on, but nothing is highlighted any more and the
/// view is as before the search. In vi mode the origin stays; otherwise the search begins anew.
pub proof fn law_empty_text_stops_searching(ctx: ActionContext, term: TermView)
    requires
        term.screen_lines >= 2,
        term.cols >= 1,
    ensures
        ({
            let before = ctx.search_state@;
            let typed = ctx.retyped(Seq::empty(), term);
            let scroll = Step::ScrollDisplay(Scroll::Delta(before.display_offset_delta));
            &&& typed.state.regex == Some(Seq::<char>::empty())
            &&& typed.state.direction == before.direction
            &&& typed.state.focused_match is None
            &&& typed.state.display_offset_delta == 0
            &&& laws::does(typed.effects, scroll)
            &&& laws::does(typed.effects, Step::CancelTerminalSearch)
            &&& laws::does(typed.effects, Step::Unschedule(TimerId::DelayedSearch))
            &&& laws::does(typed.effects, Step::MarkDirty)
            &&& laws::does(typed.effects, Step::SetMouseVisible(false))
                <==> ctx.config.hide_when_typing
            &&& before.origin.line.0 < term.screen_lines && before.origin.col.0 < term.cols
                ==> laws::does(typed.effects, Step::SetViCursor(before.origin))
            &&& term.mode.vi ==> typed.state.origin == before.origin && !typed.redisplay
            &&& !term.mode.vi ==> typed.redisplay
            &&& !term.mode.vi && before.direction is Right ==> typed.state.origin.line.0 == 0
                && typed.state.origin.col.0 == 0
            &&& !term.mode.vi && before.direction is Left ==> typed.state.origin.line.0 + 2
                == term.screen_lines && typed.state.origin.col.0 + 1 == term.cols
        }),
{
    let before = ctx.search_state@;
    let effects = ctx.retyped(Seq::empty(), term).effects;
    let first = laws::one_if(ctx.config.hide_when_typing);
    laws::lemma_does(
        effects,
        first,
        Step::ScrollDisplay(Scroll::Delta(before.display_offset_delta)),
    );
    if ctx.config.hide_when_typing {
        laws::lemma_does(effects, 0, Step::SetMouseVisible(false));
    }
    if before.origin.line.0 < term.screen_lines && before.origin.col.0 < term.cols {
        laws::lemma_does(effects, first + 1, Step::SetViCursor(before.origin));
    }
    laws::lemma_does(effects, first + 2, Step::Unschedule(TimerId::DelayedSearch));
    laws::lemma_does(effects, first + 3, Step::CancelTerminalSearch);
    laws::lemma_does(effects, effects.len() - 1, Step::MarkDirty);
}

/// Without a search there is nothing to look for and nothing to update.
pub proof fn law_no_search_no_query(
    state: SearchView,
    limit: Option<usize>,
    hide: bool,
    term: TermView,
)
    requires
        state.regex is None,
    ensures
        state.query(limit, term) is None,
        state.updated(hide, term).state == state,
        state.updated(hide, term).effects.len() == 0,
        !state.updated(hide, term).redisplay,
{
}

/// A query looks in the direction of the search, from its origin and the motion since, and stops
/// after the limit only where there are that many lines.
pub proof fn law_query_follows_the_search(state: SearchView, lines: usize, term: TermView)
    requires
        state.regex is Some,
        state.origin.line.0 < term.screen_lines,
        state.origin.col.0 < term.cols,
    ensures
        state.query(None, term) is Some,
        state.query(None, term)->0.origin == state.origin,
        state.query(None, term)->0.direction == state.direction,
        state.query(None, term)->0.line_delta == state.display_offset_delta,
        state.query(None, term)->0.limit is None,
        state.query(Some(lines), term)->0.origin == state.origin,
        state.query(Some(lines), term)->0.direction == state.direction,
        state.query(Some(lines), term)->0.line_delta == state.display_offset_delta,
        lines <= term.total_lines ==> state.query(Some(lines), term)->0.limit == Some(lines),
        lines > term.total_lines ==> state.query(Some(lines), term)->0.limit is None,
{
}

/// A match that is found comes into focus and needs no search later; the text, the direction and
/// the origin stay.
pub proof fn law_found_match_is_in_focus(state: SearchView, found: BufferRange, old: int, new: int)
    ensures
        ({
            let after = state.found(found, old, new);
            &&& after.state.focused_match == Some(found)
            &&& after.state.regex == state.regex
            &&& after.state.direction == state.direction
            &&& after.state.origin == state.origin
            &&& laws::does(after.effects, Step::Unschedule(TimerId::DelayedSearch))
            &&& after.effects.len() == 1
            &&& !after.redisplay
        }),
{
    laws::lemma_does(
        state.found(found, old, new).effects,
        0,
        Step::Unschedule(TimerId::DelayedSearch),
    );
}

/// Where a limited search finds nothing the view stays, and one later search without a limit is
/// due. Where a search without a limit finds nothing, the view is reset.
pub proof fn law_missing_match(state: SearchView, lines: usize, scheduled: bool, term: TermView)
    ensures
        ({
            let limited = state.missed(Some(lines), scheduled, term);
            &&& limited.state == (SearchView { focused_match: None, ..state })
            &&& scheduled ==> limited.effects.len() == 0
            &&& !scheduled ==> limited.effects == seq![
                EffectView::Do(Step::ScheduleDelayedSearch),
            ]
        }),
        laws::does(
            state.missed(None, scheduled, term).effects,
            Step::ScrollDisplay(Scroll::Delta(state.display_offset_delta)),
        ),
        state.missed(None, scheduled, term).state == (SearchView {
            display_offset_delta: 0,
            focused_match: None,
            ..state
        }),
        laws::does(
            state.missed(None, scheduled, term).effects,
            Step::Unschedule(TimerId::DelayedSearch),
        ),
        state.missed(None, scheduled, term).effects.len() == 3,
        !state.missed(None, scheduled, term).redisplay,
        !state.missed(Some(lines), scheduled, term).redisplay,
{
    laws::lemma_does(
        state.missed(None, scheduled, term).effects,
        2,
        Step::Unschedule(TimerId::DelayedSearch),
    );
    laws::lemma_does(
        state.missed(None, scheduled, term).effects,
        0,
        Step::ScrollDisplay(Scroll::Delta(state.display_offset_delta)),
    );
}

/// Giving a search up stops the highlighting and leaves the search. In vi mode the view and the
/// cursor go back to the origin; otherwise the match in focus, if there is one, is selected and
/// the view stays.
pub proof fn law_cancelled_search(state: SearchView, term: TermView)
    requires
        state.origin.line.0 < term.screen_lines,
        state.origin.col.0 < term.cols,
    ensures
        ({
            let effects = state.cancelled(term).effects;
            let scroll = Step::ScrollDisplay(Scroll::Delta(state.display_offset_delta));
            let n = effects.len();
            &&& n >= 2
            &&& effects[0] == EffectView::Do(Step::CancelTerminalSearch)
            &&& effects[n - 1] == EffectView::Do(Step::ExitSearch)
            &&& term.mode.vi ==> laws::does(effects, scroll) && laws::does(
                effects,
                Step::SetViCursor(state.origin),
            ) && n == 5 && state.cancelled(term).state == (SearchView {
                display_offset_delta: 0,
                focused_match: None,
                ..state
            })
            &&& !term.mode.vi && state.focused_match is None ==> n == 2
            &&& !term.mode.vi && state.focused_match is Some ==> n == 3 && effects[1]
                == EffectView::Do(Step::SelectMatch(state.focused_match->0))
            &&& !term.mode.vi ==> state.cancelled(term).state == state
            &&& !state.cancelled(term).redisplay
        }),
{
    let effects = state.cancelled(term).effects;
    if term.mode.vi {
        laws::lemma_does(
            effects,
            1,
            Step::ScrollDisplay(Scroll::Delta(state.display_offset_delta)),
        );
        laws::lemma_does(effects, 2, Step::SetViCursor(state.origin));
    }
}

/// Leaving a search gives the line of its bar back: the vi mode cursor moves a line down where
/// content moved up to make room, which is at the bottom of a terminal with a history, and where
/// there is a line below it.
pub proof fn law_left_search(state: SearchView, term: TermView)
    requires
        term.vi_cursor.line.0 < usize::MAX,
    ensures
        ({
            let left = state.exited(term);
            let n = left.effects.len();
            let below = Point {
                line: Line((term.vi_cursor.line.0 + 1) as usize),
                col: term.vi_cursor.col,
            };
            &&& left.redisplay
            &&& left.state == (SearchView { regex: None, focused_match: None, ..state })
            &&& n >= 1
            &&& left.effects[n - 1] == EffectView::Do(Step::MarkDirty)
            &&& term.history_size == 0 ==> n == 1
            &&& term.display_offset != 0 ==> n == 1
            &&& term.vi_cursor.line.0 + 1 >= term.screen_lines ==> n == 1
            &&& term.history_size > 0 && term.display_offset == 0 && term.vi_cursor.line.0 + 1
                < term.screen_lines ==> n == 2 && left.effects[0] == EffectView::Do(
                Step::SetViCursor(below),
            )
        }),
{
}

/// The visible cell nearest to a point is the point itself inside of the grid, and on the last line
/// or column where the point lies beyond them.
pub proof fn law_nearest_cell(term: TermView, point: Point)
    requires
        term.screen_lines >= 1,
        term.cols >= 1,
    ensures
        ({
            let near = term.clamp(point);
            let line_only = term.clamp_line(point);
            &&& near.line.0 < term.screen_lines && near.col.0 < term.cols
            &&& point.line.0 < term.screen_lines ==> near.line == point.line
            &&& point.line.0 >= term.screen_lines ==> near.line.0 == term.screen_lines - 1
            &&& point.col.0 < term.cols ==> near.col == point.col
            &&& point.col.0 >= term.cols ==> near.col.0 == term.cols - 1
            &&& line_only.line == near.line
            &&& line_only.col == point.col
        }),
{
}

/// A direction and its opposite lead to different sides, and the opposite of the opposite is the
/// direction itself.
pub proof fn law_opposites(direction: Direction)
    ensures
        direction.spec_opposite() != direction,
        direction.spec_opposite().spec_opposite() == direction,
{
}

} // verus!
