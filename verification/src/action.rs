//! Run the actions of bindings.
use crate::bindings::{Action, SearchAction, ViAction};
use crate::context;
use crate::context::{ActionContext, Mouse};
use crate::effect;
use crate::effect::{Effect, EffectView, Step};
use crate::index::{Direction, Line, Side};
use crate::term::{ClipboardType, HostView, Platform, Scroll, SelectionType, TermView, ViMotion};
use crate::text;
use crate::word::Url;
use vstd::prelude::*;

verus! {

/// The selection of a type is switched on or off at the vi mode cursor; a new one is not empty.
pub open spec fn vi_selection(term: TermView, ty: SelectionType) -> Seq<EffectView> {
    let toggled = context::selection_toggle(term, ty, term.vi_cursor, Direction::Left);
    if !term.nothing_selected() && term.selection->0.ty == ty {
        toggled
    } else {
        toggled.push(effect::act(Step::IncludeAll))
    }
}

/// A search from the vi mode cursor, one cell further in its direction.
pub open spec fn vi_search(direction: Direction, side: Side, to_end: bool) -> Seq<EffectView> {
    seq![effect::act(Step::ViSearch { direction, side, to_end })]
}

/// What an action of the vi mode sets off.
pub open spec fn vi_effects(
    action: ViAction,
    direction: Direction,
    term: TermView,
    vi_url: Option<Url>,
) -> Seq<EffectView> {
    match action {
        ViAction::ToggleNormalSelection => vi_selection(term, SelectionType::Simple),
        ViAction::ToggleLineSelection => vi_selection(term, SelectionType::Lines),
        ViAction::ToggleBlockSelection => vi_selection(term, SelectionType::Block),
        ViAction::ToggleSemanticSelection => vi_selection(term, SelectionType::Semantic),
        ViAction::Open => if vi_url is Some {
            seq![effect::act(Step::LaunchUrl(vi_url->0))]
        } else {
            Seq::empty()
        },
        ViAction::SearchNext => vi_search(direction, Direction::Left, false),
        ViAction::SearchPrevious => vi_search(direction.spec_opposite(), Direction::Left, false),
        ViAction::SearchStart => vi_search(Direction::Left, Direction::Left, false),
        ViAction::SearchEnd => vi_search(Direction::Right, Direction::Right, true),
    }
}

/// What an action of a search sets off.
pub open spec fn search_effects(action: SearchAction, direction: Direction) -> Seq<EffectView> {
    match action {
        SearchAction::SearchFocusNext => seq![effect::act(Step::AdvanceSearch(direction))],
        SearchAction::SearchFocusPrevious => seq![
            effect::act(Step::AdvanceSearch(direction.spec_opposite())),
        ],
        SearchAction::SearchConfirm => seq![effect::act(Step::ConfirmSearch)],
        SearchAction::SearchCancel => seq![effect::act(Step::CancelSearch)],
        SearchAction::SearchClear => seq![
            effect::act(Step::CancelSearch),
            effect::act(Step::StartSearch(direction)),
        ],
        SearchAction::SearchDeleteWord => seq![effect::act(Step::SearchPopWord)],
        SearchAction::SearchHistoryPrevious => seq![effect::act(Step::SearchHistoryPrevious)],
        SearchAction::SearchHistoryNext => seq![effect::act(Step::SearchHistoryNext)],
        SearchAction::GrepMode => seq![effect::act(Step::ToggleGrepMode)],
    }
}

/// The scrollback moves by some lines, and the vi mode cursor with it.
pub open spec fn scroll_by(lines: int, scroll: Scroll) -> Seq<EffectView> {
    seq![effect::act(Step::ScrollViCursor(lines as isize)), effect::act(Step::Scroll(scroll))]
}

/// The scrollback moves up by a line, and the vi mode cursor stays on its content where it can.
pub open spec fn line_up(term: TermView) -> Seq<EffectView> {
    let line = term.vi_cursor.line.0;
    (if term.display_offset != term.history_size && line + 1 != term.screen_lines {
        seq![effect::act(Step::SetViLine(Line((line + 1) as usize)))]
    } else {
        Seq::empty()
    }).push(effect::act(Step::Scroll(Scroll::Delta(1))))
}

/// The scrollback moves down by a line, and the vi mode cursor stays on its content where it can.
pub open spec fn line_down(term: TermView) -> Seq<EffectView> {
    let line = term.vi_cursor.line.0;
    (if term.display_offset != 0 && line != 0 {
        seq![effect::act(Step::SetViLine(Line((line - 1) as usize)))]
    } else {
        Seq::empty()
    }).push(effect::act(Step::Scroll(Scroll::Delta((-1) as isize))))
}

/// What an action sets off.
pub open spec fn action_effects(
    action: Action,
    ctx: ActionContext,
    term: TermView,
    host: HostView,
    vi_url: Option<Url>,
) -> Seq<EffectView> {
    let direction = ctx.search_state@.direction;
    let lines = term.screen_lines as int;
    let typing = context::typing_effects(ctx.config, host.blink_scheduled);
    match action {
        Action::NewTab => seq![effect::act(Step::NewTab), effect::act(Step::MarkDirty)],
        Action::PreviousTab => seq![effect::act(Step::PreviousTab), effect::act(Step::MarkDirty)],
        Action::NextTab => seq![effect::act(Step::NextTab), effect::act(Step::MarkDirty)],
        Action::Esc(s) => (typing + context::selection_clear()).push(
            effect::act(Step::Scroll(Scroll::Bottom)),
        ).push(effect::act(Step::MarkDirty)).push(
            EffectView::WriteToPty(vstd::utf8::encode_utf8(s@)),
        ),
        Action::Command(command) => seq![EffectView::StartDaemon(command.deep_view())],
        Action::ToggleViMode => seq![effect::act(Step::ToggleViMode)],
        Action::ViMotion(motion) => typing.push(effect::act(Step::ViMotion(motion))),
        Action::ViAction(vi) => vi_effects(vi, direction, term, vi_url),
        Action::SearchAction(search) => search_effects(search, direction),
        Action::SearchForward => seq![effect::act(Step::StartSearch(Direction::Right))],
        Action::SearchBackward => seq![effect::act(Step::StartSearch(Direction::Left))],
        Action::Copy => seq![effect::act(Step::CopySelection(ClipboardType::Clipboard))],
        Action::CopySelection => seq![effect::act(Step::CopySelection(ClipboardType::Selection))],
        Action::ClearSelection => context::selection_clear(),
        Action::Paste => seq![effect::act(Step::Paste(ClipboardType::Clipboard))],
        Action::PasteSelection => seq![effect::act(Step::Paste(ClipboardType::Selection))],
        Action::ToggleFullscreen => seq![effect::act(Step::ToggleFullscreen)],
        Action::ToggleSimpleFullscreen => seq![effect::act(Step::ToggleSimpleFullscreen)],
        Action::Hide => if host.platform is MacOs {
            seq![effect::act(Step::HideApplication)]
        } else {
            seq![effect::act(Step::HideWindow)]
        },
        Action::Minimize => seq![effect::act(Step::MinimizeWindow)],
        Action::Quit => seq![effect::act(Step::ExitTerminal)],
        Action::IncreaseFontSize | Action::DecreaseFontSize | Action::ResetFontSize => seq![
            effect::act(Step::SetFont(font_after(action, ctx))),
            effect::act(Step::MarkDirty),
        ],
        Action::ScrollPageUp => scroll_by(lines, Scroll::PageUp),
        Action::ScrollPageDown => scroll_by(-lines, Scroll::PageDown),
        Action::ScrollHalfPageUp => scroll_by(lines / 2, Scroll::Delta((lines / 2) as isize)),
        Action::ScrollHalfPageDown => scroll_by(
            -(lines / 2),
            Scroll::Delta((-(lines / 2)) as isize),
        ),
        Action::ScrollLineUp => line_up(term),
        Action::ScrollLineDown => line_down(term),
        Action::ScrollToTop => seq![
            effect::act(Step::Scroll(Scroll::Top)),
            effect::act(Step::SetViLine(Line(0))),
            effect::act(Step::ViMotion(ViMotion::FirstOccupied)),
        ],
        Action::ScrollToBottom => seq![
            effect::act(Step::Scroll(Scroll::Bottom)),
            effect::act(Step::SetViLine(Line((lines - 1) as usize))),
            effect::act(Step::ViMotion(ViMotion::FirstOccupied)),
            effect::act(Step::ViMotion(ViMotion::FirstOccupied)),
        ],
        Action::ClearHistory => seq![effect::act(Step::ClearHistory)],
        Action::ClearLogNotice => if host.message_lines is None {
            Seq::empty()
        } else {
            seq![effect::act(Step::PopMessage)]
        },
        Action::SpawnNewInstance => seq![effect::act(Step::SpawnNewInstance)],
        Action::ReceiveChar | Action::Nothing => Seq::empty(),
    }
}

/// The font size after an action.
pub open spec fn font_after(action: Action, ctx: ActionContext) -> i16 {
    match action {
        Action::IncreaseFontSize => context::changed_font_size(
            ctx.font_size as int,
            context::FONT_SIZE_STEP as int,
        ) as i16,
        Action::DecreaseFontSize => context::changed_font_size(
            ctx.font_size as int,
            -(context::FONT_SIZE_STEP as int),
        ) as i16,
        Action::ResetFontSize => ctx.config.font_size,
        _ => ctx.font_size,
    }
}

/// The state after an action.
pub open spec fn context_after(action: Action, ctx: ActionContext, host: HostView) -> ActionContext {
    match action {
        Action::Esc(_) | Action::ViMotion(_) => ActionContext {
            cursor_hidden: ctx.cursor_hidden && !host.blink_scheduled,
            ..ctx
        },
        Action::ViAction(ViAction::Open) => ActionContext {
            mouse: Mouse { block_url_launcher: false, ..ctx.mouse },
            ..ctx
        },
        Action::ClearLogNotice => ActionContext {
            display_update_pending: ctx.display_update_pending || host.message_lines is Some,
            ..ctx
        },
        _ => ActionContext { font_size: font_after(action, ctx), ..ctx },
    }
}

fn single(step: Step) -> (r: Vec<Effect>)
    ensures
        effect::values(r) == seq![effect::act(step)],
{
    let mut fx = effect::none();
    effect::step(&mut fx, step);
    fx
}

fn pair(first: Step, second: Step) -> (r: Vec<Effect>)
    ensures
        effect::values(r) == seq![effect::act(first), effect::act(second)],
{
    let mut fx = effect::none();
    effect::step(&mut fx, first);
    effect::step(&mut fx, second);
    fx
}

impl Action {
    fn toggle_selection(ty: SelectionType, term: &TermView) -> (r: Vec<Effect>)
        ensures
            effect::values(r) == vi_selection(*term, ty),
    {
        let mut fx = context::toggle_selection(ty, term.vi_cursor, Direction::Left, term);
        let cleared = match &term.selection {
            Some(selection) => selection.ty == ty && !selection.is_empty,
            None => false,
        };
        // Make sure initial selection is not empty.
        if !cleared {
            effect::step(&mut fx, Step::IncludeAll);
        }
        fx
    }

    fn execute_vi(
        action: ViAction,
        ctx: &mut ActionContext,
        term: &TermView,
        vi_url: Option<Url>,
    ) -> (r: Vec<Effect>)
        ensures
            *final(ctx) == (ActionContext {
                mouse: Mouse {
                    block_url_launcher: old(ctx).mouse.block_url_launcher && !(action is Open),
                    ..old(ctx).mouse
                },
                ..*old(ctx)
            }),
            effect::values(r) == vi_effects(
                action,
                old(ctx).search_state@.direction,
                *term,
                vi_url,
            ),
    {
        let direction = ctx.search_state.direction();
        match action {
            ViAction::ToggleNormalSelection => Self::toggle_selection(SelectionType::Simple, term),
            ViAction::ToggleLineSelection => Self::toggle_selection(SelectionType::Lines, term),
            ViAction::ToggleBlockSelection => Self::toggle_selection(SelectionType::Block, term),
            ViAction::ToggleSemanticSelection => Self::toggle_selection(
                SelectionType::Semantic,
                term,
            ),
            ViAction::Open => {
                ctx.mouse.block_url_launcher = false;
                match vi_url {
                    Some(url) => single(Step::LaunchUrl(url)),
                    None => effect::none(),
                }
            },
            ViAction::SearchNext => single(
                Step::ViSearch { direction, side: Direction::Left, to_end: false },
            ),
            ViAction::SearchPrevious => single(
                Step::ViSearch {
                    direction: direction.opposite(),
                    side: Direction::Left,
                    to_end: false,
                },
            ),
            ViAction::SearchStart => single(
                Step::ViSearch { direction: Direction::Left, side: Direction::Left, to_end: false },
            ),
            ViAction::SearchEnd => single(
                Step::ViSearch { direction: Direction::Right, side: Direction::Right, to_end: true },
            ),
        }
    }

    fn execute_search(action: SearchAction, direction: Direction) -> (r: Vec<Effect>)
        ensures
            effect::values(r) == search_effects(action, direction),
    {
        match action {
            SearchAction::SearchFocusNext => single(Step::AdvanceSearch(direction)),
            SearchAction::SearchFocusPrevious => single(Step::AdvanceSearch(direction.opposite())),
            SearchAction::SearchConfirm => single(Step::ConfirmSearch),
            SearchAction::SearchCancel => single(Step::CancelSearch),
            SearchAction::SearchClear => pair(Step::CancelSearch, Step::StartSearch(direction)),
            SearchAction::SearchDeleteWord => single(Step::SearchPopWord),
            SearchAction::SearchHistoryPrevious => single(Step::SearchHistoryPrevious),
            SearchAction::SearchHistoryNext => single(Step::SearchHistoryNext),
            SearchAction::GrepMode => single(Step::ToggleGrepMode),
        }
    }

    fn scroll_line_up(term: &TermView) -> (r: Vec<Effect>)
        requires
            term.vi_cursor.line.0 < usize::MAX,
        ensures
            effect::values(r) == line_up(*term),
    {
        let mut fx = effect::none();
        // Move vi mode cursor.
        let line: usize = term.vi_cursor.line.0;
        if term.display_offset != term.history_size && line + 1 != term.screen_lines {
            effect::step(&mut fx, Step::SetViLine(Line(line + 1)));
        }
        effect::step(&mut fx, Step::Scroll(Scroll::Delta(1)));
        fx
    }

    fn scroll_line_down(term: &TermView) -> (r: Vec<Effect>)
        ensures
            effect::values(r) == line_down(*term),
    {
        let mut fx = effect::none();
        // Move vi mode cursor.
        let line: usize = term.vi_cursor.line.0;
        if term.display_offset != 0 && line != 0 {
            effect::step(&mut fx, Step::SetViLine(Line(line - 1)));
        }
        effect::step(&mut fx, Step::Scroll(Scroll::Delta(-1)));
        fx
    }

    fn scroll_to_end(scroll: Scroll, line: usize, motions: usize) -> (r: Vec<Effect>)
        requires
            1 <= motions <= 2,
        ensures
            effect::values(r) == if motions == 1 {
                seq![
                    effect::act(Step::Scroll(scroll)),
                    effect::act(Step::SetViLine(Line(line))),
                    effect::act(Step::ViMotion(ViMotion::FirstOccupied)),
                ]
            } else {
                seq![
                    effect::act(Step::Scroll(scroll)),
                    effect::act(Step::SetViLine(Line(line))),
                    effect::act(Step::ViMotion(ViMotion::FirstOccupied)),
                    effect::act(Step::ViMotion(ViMotion::FirstOccupied)),
                ]
            },
    {
        let mut fx = pair(Step::Scroll(scroll), Step::SetViLine(Line(line)));
        effect::step(&mut fx, Step::ViMotion(ViMotion::FirstOccupied));
        if motions == 2 {
            effect::step(&mut fx, Step::ViMotion(ViMotion::FirstOccupied));
        }
        fx
    }

    fn escape(text: &String, ctx: &mut ActionContext, host: &HostView) -> (r: Vec<Effect>)
        ensures
            *final(ctx) == (ActionContext {
                cursor_hidden: old(ctx).cursor_hidden && !host.blink_scheduled,
                ..*old(ctx)
            }),
            effect::values(r) == (context::typing_effects(old(ctx).config, host.blink_scheduled)
                + context::selection_clear()).push(effect::act(Step::Scroll(Scroll::Bottom))).push(
                effect::act(Step::MarkDirty),
            ).push(EffectView::WriteToPty(vstd::utf8::encode_utf8(text@))),
    {
        let mut fx = ctx.on_typing_start(host.blink_scheduled);
        effect::extend(&mut fx, context::clear_selection());
        effect::step(&mut fx, Step::Scroll(Scroll::Bottom));
        effect::step(&mut fx, Step::MarkDirty);
        effect::emit(&mut fx, Effect::WriteToPty(text::bytes_of(text.as_str())));
        fx
    }

    /// Execute the action. `vi_url` is the address at the vi mode cursor.
    pub fn execute(
        &self,
        ctx: &mut ActionContext,
        term: &TermView,
        host: &HostView,
        vi_url: Option<Url>,
    ) -> (r: Vec<Effect>)
        requires
            term.wf(),
            term.screen_lines <= isize::MAX,
            term.vi_cursor.line.0 < usize::MAX,
        ensures
            *final(ctx) == context_after(*self, *old(ctx), *host),
            effect::values(r) == action_effects(*self, *old(ctx), *term, *host, vi_url),
    {
        let page: isize = term.screen_lines as isize;
        let half: isize = (term.screen_lines / 2) as isize;
        match self {
            Action::NewTab => pair(Step::NewTab, Step::MarkDirty),
            Action::PreviousTab => pair(Step::PreviousTab, Step::MarkDirty),
            Action::NextTab => pair(Step::NextTab, Step::MarkDirty),
            Action::Esc(s) => Self::escape(s, ctx, host),
            Action::Command(command) => {
                let mut fx = effect::none();
                effect::emit(&mut fx, Effect::StartDaemon(context::clone_command(command)));
                fx
            },
            Action::ToggleViMode => single(Step::ToggleViMode),
            Action::ViMotion(motion) => {
                let mut fx = ctx.on_typing_start(host.blink_scheduled);
                effect::step(&mut fx, Step::ViMotion(*motion));
                fx
            },
            Action::ViAction(action) => Self::execute_vi(*action, ctx, term, vi_url),
            Action::SearchAction(action) => Self::execute_search(
                *action,
                ctx.search_state.direction(),
            ),
            Action::SearchForward => single(Step::StartSearch(Direction::Right)),
            Action::SearchBackward => single(Step::StartSearch(Direction::Left)),
            Action::Copy => single(Step::CopySelection(ClipboardType::Clipboard)),
            Action::CopySelection => single(Step::CopySelection(ClipboardType::Selection)),
            Action::ClearSelection => context::clear_selection(),
            Action::Paste => single(Step::Paste(ClipboardType::Clipboard)),
            Action::PasteSelection => single(Step::Paste(ClipboardType::Selection)),
            Action::ToggleFullscreen => single(Step::ToggleFullscreen),
            Action::ToggleSimpleFullscreen => single(Step::ToggleSimpleFullscreen),
            Action::Hide => match host.platform {
                Platform::MacOs => single(Step::HideApplication),
                _ => single(Step::HideWindow),
            },
            Action::Minimize => single(Step::MinimizeWindow),
            Action::Quit => single(Step::ExitTerminal),
            Action::IncreaseFontSize => ctx.change_font_size(context::FONT_SIZE_STEP),
            Action::DecreaseFontSize => ctx.change_font_size(-context::FONT_SIZE_STEP),
            Action::ResetFontSize => ctx.reset_font_size(),
            Action::ScrollPageUp => pair(Step::ScrollViCursor(page), Step::Scroll(Scroll::PageUp)),
            Action::ScrollPageDown => pair(
                Step::ScrollViCursor(-page),
                Step::Scroll(Scroll::PageDown),
            ),
            Action::ScrollHalfPageUp => pair(
                Step::ScrollViCursor(half),
                Step::Scroll(Scroll::Delta(half)),
            ),
            Action::ScrollHalfPageDown => pair(
                Step::ScrollViCursor(-half),
                Step::Scroll(Scroll::Delta(-half)),
            ),
            Action::ScrollLineUp => Self::scroll_line_up(term),
            Action::ScrollLineDown => Self::scroll_line_down(term),
            Action::ScrollToTop => Self::scroll_to_end(Scroll::Top, 0, 1),
            // Move to beginning twice, to always jump across linewraps.
            Action::ScrollToBottom => Self::scroll_to_end(
                Scroll::Bottom,
                term.screen_lines - 1,
                2,
            ),
            Action::ClearHistory => single(Step::ClearHistory),
            Action::ClearLogNotice => ctx.pop_message(host.message_lines.is_none()),
            Action::SpawnNewInstance => single(Step::SpawnNewInstance),
            Action::ReceiveChar => effect::none(),
            Action::Nothing => effect::none(),
        }
    }
}

/// Whatever an action does, it leaves the search, the modifiers, the settings and the state of the
/// keyboard as they are; of the mouse it changes only whether addresses may be opened.
pub proof fn law_actions_keep_input_state(action: Action, ctx: ActionContext, host: HostView)
    ensures
        ({
            let after = context_after(action, ctx, host);
            &&& after.search_state == ctx.search_state
            &&& after.modifiers == ctx.modifiers
            &&& after.config == ctx.config
            &&& after.received_count == ctx.received_count
            &&& after.suppress_chars == ctx.suppress_chars
            &&& after.mouse == (Mouse {
                block_url_launcher: after.mouse.block_url_launcher,
                ..ctx.mouse
            })
        }),
{
}

/// Asking again for the type of selection that is there drops it.
pub proof fn law_same_selection_again_drops_it(term: TermView)
    requires
        !term.nothing_selected(),
    ensures
        vi_selection(term, term.selection->0.ty) == context::selection_clear(),
{
}

} // verus!
