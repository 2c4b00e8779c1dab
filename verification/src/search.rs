//! Searching in the terminal.
use crate::effect;
use crate::effect::{Effect, EffectView, Step, TimerId};
use crate::index::{BufferRange, Column, Direction, Line, Point};
use crate::term::{Scroll, TermView};
use crate::text;
use vstd::prelude::*;

verus! {

/// Maximum number of lines for the blocking search while still typing the search regex.
pub const MAX_SEARCH_WHILE_TYPING: usize = 10000;

/// Milliseconds after the last user input until an unlimited search is performed.
pub const TYPING_SEARCH_DELAY: u64 = 500;

/// Regex search state.
#[derive(Debug)]
pub struct SearchState {
    /// Search string regex.
    pub regex: Option<String>,
    /// Search direction.
    pub direction: Direction,
    /// Change in display offset since the beginning of the search.
    pub display_offset_delta: isize,
    /// Search origin in viewport coordinates relative to original display offset.
    pub origin: Point,
    /// Focused match during active search.
    pub focused_match: Option<BufferRange>,
}

/// The value of a [`SearchState`].
pub struct SearchView {
    pub regex: Option<Seq<char>>,
    pub direction: Direction,
    pub display_offset_delta: isize,
    pub origin: Point,
    pub focused_match: Option<BufferRange>,
}

/// What a step of a search comes to.
pub struct SearchOutcome {
    pub state: SearchView,
    /// The display has to be laid out again.
    pub redisplay: bool,
    pub effects: Seq<EffectView>,
}

impl View for SearchState {
    type V = SearchView;

    open spec fn view(&self) -> SearchView {
        SearchView {
            regex: text::optional(self.regex),
            direction: self.direction,
            display_offset_delta: self.display_offset_delta,
            origin: self.origin,
            focused_match: self.focused_match,
        }
    }
}

/// A search for a match: from the cell that is `line_delta` lines above the visible cell
/// `origin`, where `limit` is the number of lines after which it gives up.
#[derive(Clone, Copy, PartialEq, Eq, Structural, Debug)]
pub struct MatchQuery {
    pub origin: Point,
    pub line_delta: isize,
    pub direction: Direction,
    pub limit: Option<usize>,
}

impl SearchView {
    pub open spec fn active(self) -> bool {
        self.regex is Some
    }

    /// The state before any search.
    pub open spec fn initial() -> SearchView {
        SearchView {
            regex: None,
            direction: Direction::Right,
            display_offset_delta: 0,
            origin: Point { line: Line(0), col: Column(0) },
            focused_match: None,
        }
    }

    /// Where a search begins: at the vi mode cursor, or else at the corner of the screen that it
    /// leads away from.
    pub open spec fn starting_point(direction: Direction, term: TermView) -> Point {
        if term.mode.vi {
            term.vi_cursor
        } else {
            match direction {
                Direction::Right => Point { line: Line(0), col: Column(0) },
                Direction::Left => Point::spec_new(term.screen_lines - 2, term.cols - 1),
            }
        }
    }

    /// A search can begin: the corner of the screen exists.
    pub open spec fn can_start(direction: Direction, term: TermView) -> bool {
        !term.mode.vi && direction is Left ==> term.screen_lines >= 2 && term.cols >= 1
    }

    /// A search with no text yet.
    pub open spec fn started(self, direction: Direction, term: TermView) -> SearchOutcome {
        SearchOutcome {
            state: SearchView {
                regex: Some(Seq::empty()),
                direction,
                display_offset_delta: 0,
                origin: Self::starting_point(direction, term),
                focused_match: None,
            },
            redisplay: true,
            effects: seq![effect::act(Step::MarkDirty)],
        }
    }

    /// Back to the view from before the search.
    pub open spec fn reset(self, term: TermView) -> SearchOutcome {
        SearchOutcome {
            state: SearchView { display_offset_delta: 0, focused_match: None, ..self },
            redisplay: false,
            effects: seq![
                effect::act(Step::ScrollDisplay(Scroll::Delta(self.display_offset_delta))),
                effect::act(Step::SetViCursor(term.clamp(self.origin))),
                effect::act(Step::Unschedule(TimerId::DelayedSearch)),
            ],
        }
    }

    /// The search over; the vi mode cursor makes room for the line that the search bar took.
    pub open spec fn exited(self, term: TermView) -> SearchOutcome {
        let moves = term.history_size != 0 && term.display_offset == 0 && term.screen_lines
            > term.vi_cursor.line.0 + 1;
        SearchOutcome {
            state: SearchView { regex: None, focused_match: None, ..self },
            redisplay: true,
            effects: (if moves {
                seq![
                    effect::act(
                        Step::SetViCursor(
                            Point::spec_new(
                                term.vi_cursor.line.0 + 1,
                                term.vi_cursor.col.0 as int,
                            ),
                        ),
                    ),
                ]
            } else {
                Seq::empty()
            }).push(effect::act(Step::MarkDirty)),
        }
    }

    /// What a change of the text leads to: a new search, or none where the text is empty.
    pub open spec fn updated(self, hide_mouse: bool, term: TermView) -> SearchOutcome {
        if self.regex is None {
            SearchOutcome { state: self, redisplay: false, effects: Seq::empty() }
        } else {
            let hide = if hide_mouse {
                seq![effect::act(Step::SetMouseVisible(false))]
            } else {
                Seq::empty()
            };
            if self.regex->0.len() == 0 {
                let reset = self.reset(term);
                let stopped = hide + reset.effects + seq![
                    effect::act(Step::CancelTerminalSearch),
                ];
                if term.mode.vi {
                    SearchOutcome {
                        state: reset.state,
                        redisplay: false,
                        effects: stopped.push(effect::act(Step::MarkDirty)),
                    }
                } else {
                    let again = reset.state.started(self.direction, term);
                    SearchOutcome {
                        state: again.state,
                        redisplay: true,
                        effects: (stopped + again.effects).push(effect::act(Step::MarkDirty)),
                    }
                }
            } else {
                SearchOutcome {
                    state: self,
                    redisplay: false,
                    effects: hide + seq![
                        EffectView::StartTerminalSearch(self.regex->0),
                        effect::act(Step::GotoMatch(Some(MAX_SEARCH_WHILE_TYPING))),
                        effect::act(Step::MarkDirty),
                    ],
                }
            }
        }
    }

    /// A change of the text can be followed up.
    pub open spec fn can_update(self, term: TermView) -> bool {
        self.regex is Some && self.regex->0.len() == 0 ==> {
            &&& term.wf()
            &&& Self::can_start(self.direction, term)
        }
    }

    /// The search that finds the next match from the origin. It is limited only where there are
    /// enough lines to run into the limit.
    pub open spec fn query(self, limit: Option<usize>, term: TermView) -> Option<MatchQuery> {
        if self.regex is None {
            None
        } else {
            Some(
                MatchQuery {
                    origin: term.clamp(self.origin),
                    line_delta: self.display_offset_delta,
                    direction: self.direction,
                    limit: if limit is Some && limit->0 <= term.total_lines {
                        limit
                    } else {
                        None
                    },
                },
            )
        }
    }

    /// A match is in view, for which the view moved from one offset to another.
    pub open spec fn found(self, m: BufferRange, old_offset: int, new_offset: int) -> SearchOutcome {
        SearchOutcome {
            state: SearchView {
                focused_match: Some(m),
                display_offset_delta: (self.display_offset_delta + old_offset
                    - new_offset) as isize,
                ..self
            },
            redisplay: false,
            effects: seq![effect::act(Step::Unschedule(TimerId::DelayedSearch))],
        }
    }

    /// There is no match, or none within the limit: then an unlimited search follows later.
    pub open spec fn missed(
        self,
        limit: Option<usize>,
        scheduled: bool,
        term: TermView,
    ) -> SearchOutcome {
        if limit is None {
            self.reset(term)
        } else {
            SearchOutcome {
                state: SearchView { focused_match: None, ..self },
                redisplay: false,
                effects: if scheduled {
                    Seq::empty()
                } else {
                    seq![effect::act(Step::ScheduleDelayedSearch)]
                },
            }
        }
    }

    /// The search given up: in vi mode the view is as before it, and otherwise the match in focus
    /// is selected.
    pub open spec fn cancelled(self, term: TermView) -> SearchOutcome {
        let stop = seq![effect::act(Step::CancelTerminalSearch)];
        let exit = seq![effect::act(Step::ExitSearch)];
        if term.mode.vi {
            let reset = self.reset(term);
            SearchOutcome { effects: stop + reset.effects + exit, ..reset }
        } else {
            SearchOutcome {
                state: self,
                redisplay: false,
                effects: match self.focused_match {
                    Some(m) => stop + seq![effect::act(Step::SelectMatch(m))] + exit,
                    None => stop + exit,
                },
            }
        }
    }
}

impl SearchState {
    pub fn new() -> (r: SearchState)
        ensures
            r@ == SearchView::initial(),
    {
        SearchState::default()
    }

    /// Search regex text if a search is active.
    pub fn regex(&self) -> (r: Option<&String>)
        ensures
            r is Some <==> self.regex is Some,
            r is Some ==> *r->0 == self.regex->0,
    {
        self.regex.as_ref()
    }

    /// Direction of the search from the search origin.
    pub fn direction(&self) -> (r: Direction)
        ensures
            r == self.direction,
    {
        self.direction
    }

    /// Focused match during vi-less search.
    pub fn focused_match(&self) -> (r: Option<&BufferRange>)
        ensures
            r is Some <==> self.focused_match is Some,
            r is Some ==> *r->0 == self.focused_match->0,
    {
        self.focused_match.as_ref()
    }

    /// Whether text is being searched for.
    pub fn is_active(&self) -> (r: bool)
        ensures
            r == self@.active(),
    {
        self.regex.is_some()
    }

    /// Begins a search; the display has to be laid out again.
    pub fn start(&mut self, direction: Direction, term: &TermView) -> (r: Vec<Effect>)
        requires
            SearchView::can_start(direction, *term),
        ensures
            final(self)@ == old(self)@.started(direction, *term).state,
            effect::values(r) == old(self)@.started(direction, *term).effects,
    {
        self.focused_match = None;
        self.regex = Some(String::new());
        self.direction = direction;
        self.display_offset_delta = 0;
        let mut fx = effect::none();
        effect::step(&mut fx, Step::MarkDirty);
        self.origin = if term.mode.vi {
            term.vi_cursor
        } else {
            match direction {
                Direction::Right => Point::new(Line(0), Column(0)),
                Direction::Left => Point::new(
                    Line(term.screen_lines - 2),
                    Column(term.cols - 1),
                ),
            }
        };
        fx
    }

    /// Reset terminal to the state before search was started.
    pub fn reset(&mut self, term: &TermView) -> (r: Vec<Effect>)
        requires
            term.wf(),
        ensures
            final(self)@ == old(self)@.reset(*term).state,
            effect::values(r) == old(self)@.reset(*term).effects,
    {
        let mut fx = effect::none();
        effect::step(
            &mut fx,
            Step::ScrollDisplay(Scroll::Delta(self.display_offset_delta)),
        );
        self.display_offset_delta = 0;
        self.focused_match = None;
        effect::step(&mut fx, Step::SetViCursor(term.clamped(self.origin)));
        effect::step(&mut fx, Step::Unschedule(TimerId::DelayedSearch));
        fx
    }
}

impl Default for SearchState {
    fn default() -> (r: SearchState)
        ensures
            r@ == SearchView::initial(),
    {
        SearchState {
            direction: Direction::Right,
            display_offset_delta: 0,
            origin: Point::default(),
            focused_match: None,
            regex: None,
        }
    }
}

/// Cancelling or confirming a search and leaving it ends it, whatever was found.
pub proof fn law_exit_ends_search(state: SearchView, term: TermView)
    ensures
        !state.exited(term).state.active(),
        state.exited(term).state.focused_match is None,
{
}

} // verus!
