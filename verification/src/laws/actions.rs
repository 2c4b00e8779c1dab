//! Laws of the actions that keys and buttons are bound to.
use crate::bindings::{Action, SearchAction, ViAction};
use crate::context::{ActionContext, Mouse};
use crate::effect::{EffectView, Step};
use crate::index::{Direction, Line};
use crate::laws;
use crate::term::{
    ClipboardType, Command, HostView, Platform, Scroll, SelectionType, SelectionView, TermView,
    ViMotion,
};
use crate::word::Url;
use vstd::prelude::*;

verus! {

/// What an action does where no address is below the vi mode cursor.
pub open spec fn of(action: Action, ctx: ActionContext, term: TermView, host: HostView) -> Seq<
    EffectView,
> {
    crate::action::action_effects(action, ctx, term, host, None)
}

/// The actions on tabs open a tab or step in the named direction, and draw the window.
pub proof fn law_tab_actions(ctx: ActionContext, term: TermView, host: HostView)
    ensures
        laws::does(of(Action::NewTab, ctx, term, host), Step::NewTab),
        laws::does(of(Action::NewTab, ctx, term, host), Step::MarkDirty),
        laws::does(of(Action::NextTab, ctx, term, host), Step::NextTab),
        laws::does(of(Action::NextTab, ctx, term, host), Step::MarkDirty),
        laws::does(of(Action::PreviousTab, ctx, term, host), Step::PreviousTab),
        laws::does(of(Action::PreviousTab, ctx, term, host), Step::MarkDirty),
        of(Action::NewTab, ctx, term, host).len() == 2,
        of(Action::NextTab, ctx, term, host).len() == 2,
        of(Action::PreviousTab, ctx, term, host).len() == 2,
{
    laws::lemma_does(of(Action::NewTab, ctx, term, host), 0, Step::NewTab);
    laws::lemma_does(of(Action::NewTab, ctx, term, host), 1, Step::MarkDirty);
    laws::lemma_does(of(Action::NextTab, ctx, term, host), 0, Step::NextTab);
    laws::lemma_does(of(Action::NextTab, ctx, term, host), 1, Step::MarkDirty);
    laws::lemma_does(of(Action::PreviousTab, ctx, term, host), 0, Step::PreviousTab);
    laws::lemma_does(of(Action::PreviousTab, ctx, term, host), 1, Step::MarkDirty);
}

/// A bound text is typed: the selection is dropped, the view goes to the bottom, and the text is
/// written as it is, once and last.
pub proof fn law_bound_text_is_written(
    text: String,
    ctx: ActionContext,
    term: TermView,
    host: HostView,
)
    ensures
        ({
            let effects = of(Action::Esc(text), ctx, term, host);
            let n = effects.len();
            &&& n >= 5
            &&& effects[n - 1] == EffectView::WriteToPty(vstd::utf8::encode_utf8(text@))
            &&& laws::writes_nothing(effects.drop_last())
            &&& effects.take(n - 5) == crate::context::typing_effects(
                ctx.config,
                host.blink_scheduled,
            )
            &&& laws::does(effects, Step::DropSelection)
            &&& laws::does(effects, Step::Scroll(Scroll::Bottom))
            &&& laws::does(effects, Step::MarkDirty)
        }),
        host.blink_scheduled ==> !crate::action::context_after(
            Action::Esc(text),
            ctx,
            host,
        ).cursor_hidden,
        !host.blink_scheduled ==> crate::action::context_after(Action::Esc(text), ctx, host) == ctx,
        ({
            let after = crate::action::context_after(Action::Esc(text), ctx, host);
            after == (ActionContext { cursor_hidden: after.cursor_hidden, ..ctx })
        }),
{
    let effects = of(Action::Esc(text), ctx, term, host);
    let n = effects.len();
    assert(effects.take(n - 5) =~= crate::context::typing_effects(
        ctx.config,
        host.blink_scheduled,
    ));
    laws::lemma_does(effects, n - 5, Step::DropSelection);
    laws::lemma_does(effects, n - 3, Step::Scroll(Scroll::Bottom));
    laws::lemma_does(effects, n - 2, Step::MarkDirty);
}

/// A bound command is started as it is.
pub proof fn law_bound_command_is_started(
    command: Command,
    ctx: ActionContext,
    term: TermView,
    host: HostView,
)
    ensures
        of(Action::Command(command), ctx, term, host) == seq![
            EffectView::StartDaemon(command.deep_view()),
        ],
{
}

/// Copying and pasting name the same clipboard: the system's, or that of the selection.
pub proof fn law_clipboard_actions(ctx: ActionContext, term: TermView, host: HostView)
    ensures
        of(Action::Copy, ctx, term, host) == seq![
            EffectView::Do(Step::CopySelection(ClipboardType::Clipboard)),
        ],
        of(Action::Paste, ctx, term, host) == seq![
            EffectView::Do(Step::Paste(ClipboardType::Clipboard)),
        ],
        of(Action::CopySelection, ctx, term, host) == seq![
            EffectView::Do(Step::CopySelection(ClipboardType::Selection)),
        ],
        of(Action::PasteSelection, ctx, term, host) == seq![
            EffectView::Do(Step::Paste(ClipboardType::Selection)),
        ],
        laws::does(of(Action::ClearSelection, ctx, term, host), Step::DropSelection),
{
    laws::lemma_does(of(Action::ClearSelection, ctx, term, host), 0, Step::DropSelection);
}

/// Each action on the window is the one that its name says. Hiding hides the whole application on
/// macOS and the window elsewhere.
pub proof fn law_window_actions(ctx: ActionContext, term: TermView, host: HostView)
    ensures
        of(Action::ToggleFullscreen, ctx, term, host) == seq![
            EffectView::Do(Step::ToggleFullscreen),
        ],
        of(Action::ToggleSimpleFullscreen, ctx, term, host) == seq![
            EffectView::Do(Step::ToggleSimpleFullscreen),
        ],
        of(Action::Minimize, ctx, term, host) == seq![EffectView::Do(Step::MinimizeWindow)],
        of(Action::Quit, ctx, term, host) == seq![EffectView::Do(Step::ExitTerminal)],
        of(Action::SpawnNewInstance, ctx, term, host) == seq![
            EffectView::Do(Step::SpawnNewInstance),
        ],
        of(Action::Hide, ctx, term, host).len() == 1,
        of(Action::Hide, ctx, term, host)[0] == EffectView::Do(Step::HideApplication)
            <==> host.platform == Platform::MacOs,
        of(Action::Hide, ctx, term, host)[0] == EffectView::Do(Step::HideWindow) <==> host.platform
            != Platform::MacOs,
{
}

/// A font size that is not at an end grows and shrinks by one step, so either undoes the other. At
/// an end it stays. A reset goes back to the configured size. The size is set and drawn at once.
pub proof fn law_font_size_actions(
    action: Action,
    ctx: ActionContext,
    term: TermView,
    host: HostView,
)
    requires
        action is IncreaseFontSize || action is DecreaseFontSize || action is ResetFontSize,
        1 <= ctx.font_size,
    ensures
        ({
            let after = crate::action::context_after(action, ctx, host);
            let effects = of(action, ctx, term, host);
            &&& action is IncreaseFontSize && ctx.font_size < i16::MAX ==> after.font_size
                == ctx.font_size + 1
            &&& action is IncreaseFontSize && ctx.font_size == i16::MAX ==> after.font_size
                == ctx.font_size
            &&& action is DecreaseFontSize && ctx.font_size > 1 ==> after.font_size == ctx.font_size
                - 1
            &&& action is DecreaseFontSize && ctx.font_size == 1 ==> after.font_size == 1
            &&& action is ResetFontSize ==> after.font_size == ctx.config.font_size
            &&& effects == seq![
                EffectView::Do(Step::SetFont(after.font_size)),
                EffectView::Do(Step::MarkDirty),
            ]
            &&& after == (ActionContext { font_size: after.font_size, ..ctx })
        }),
{
}

/// A font size that is changed by any amount is the sum, kept between the smallest size and the
/// largest one.
pub proof fn law_changed_font_size(size: int, delta: int)
    ensures
        ({
            let changed = crate::context::changed_font_size(size, delta);
            &&& 1 <= size + delta <= i16::MAX ==> changed == size + delta
            &&& size + delta < 1 ==> changed == 1
            &&& size + delta > i16::MAX ==> changed == i16::MAX
        }),
{
}

/// A whole page scrolls by as many lines as the screen has and half a page by half of them, the vi
/// mode cursor along with the view. Down is the opposite of up.
pub proof fn law_page_actions(ctx: ActionContext, term: TermView, host: HostView)
    requires
        term.screen_lines <= isize::MAX,
    ensures
        ({
            let lines = term.screen_lines as int;
            let half = lines / 2;
            &&& of(Action::ScrollPageUp, ctx, term, host) == seq![
                EffectView::Do(Step::ScrollViCursor(lines as isize)),
                EffectView::Do(Step::Scroll(Scroll::PageUp)),
            ]
            &&& of(Action::ScrollPageDown, ctx, term, host) == seq![
                EffectView::Do(Step::ScrollViCursor((-lines) as isize)),
                EffectView::Do(Step::Scroll(Scroll::PageDown)),
            ]
            &&& of(Action::ScrollHalfPageUp, ctx, term, host) == seq![
                EffectView::Do(Step::ScrollViCursor(half as isize)),
                EffectView::Do(Step::Scroll(Scroll::Delta(half as isize))),
            ]
            &&& of(Action::ScrollHalfPageDown, ctx, term, host) == seq![
                EffectView::Do(Step::ScrollViCursor((-half) as isize)),
                EffectView::Do(Step::Scroll(Scroll::Delta((-half) as isize))),
            ]
        }),
{
}

/// A line up or down scrolls the view by one. The vi mode cursor stays on its text: it moves a line
/// the other way where the view can move and the cursor stays on the screen.
pub proof fn law_line_actions(ctx: ActionContext, term: TermView, host: HostView)
    requires
        term.vi_cursor.line.0 < term.screen_lines,
        term.screen_lines < usize::MAX,
    ensures
        ({
            let up = of(Action::ScrollLineUp, ctx, term, host);
            let down = of(Action::ScrollLineDown, ctx, term, host);
            let line = term.vi_cursor.line.0;
            let up_moves = term.display_offset != term.history_size && line + 1 < term.screen_lines;
            let down_moves = term.display_offset > 0 && line > 0;
            &&& up.len() > 0 && up[up.len() - 1] == EffectView::Do(Step::Scroll(Scroll::Delta(1)))
            &&& down.len() > 0 && down[down.len() - 1] == EffectView::Do(
                Step::Scroll(Scroll::Delta((-1) as isize)),
            )
            &&& up_moves ==> up.len() == 2 && up[0] == EffectView::Do(
                Step::SetViLine(Line((line + 1) as usize)),
            )
            &&& !up_moves ==> up.len() == 1
            &&& down_moves ==> down.len() == 2 && down[0] == EffectView::Do(
                Step::SetViLine(Line((line - 1) as usize)),
            )
            &&& !down_moves ==> down.len() == 1
        }),
{
}

/// To the top goes the view, and the vi mode cursor to the first line; to the bottom goes the view,
/// and the cursor to the last line. In both it goes to the first character of its line.
pub proof fn law_end_actions(ctx: ActionContext, term: TermView, host: HostView)
    requires
        term.screen_lines >= 1,
    ensures
        ({
            let top = of(Action::ScrollToTop, ctx, term, host);
            let bottom = of(Action::ScrollToBottom, ctx, term, host);
            &&& laws::does(top, Step::Scroll(Scroll::Top))
            &&& laws::does(top, Step::SetViLine(Line(0)))
            &&& top[top.len() - 1] == EffectView::Do(Step::ViMotion(ViMotion::FirstOccupied))
            &&& top.len() == 3
            &&& laws::does(bottom, Step::Scroll(Scroll::Bottom))
            &&& laws::does(bottom, Step::SetViLine(Line((term.screen_lines - 1) as usize)))
            &&& bottom[bottom.len() - 1] == EffectView::Do(Step::ViMotion(ViMotion::FirstOccupied))
            &&& bottom[bottom.len() - 2] == bottom[bottom.len() - 1]
            &&& bottom.len() == 4
        }),
{
    let top = of(Action::ScrollToTop, ctx, term, host);
    let bottom = of(Action::ScrollToBottom, ctx, term, host);
    laws::lemma_does(top, 0, Step::Scroll(Scroll::Top));
    laws::lemma_does(top, 1, Step::SetViLine(Line(0)));
    laws::lemma_does(bottom, 0, Step::Scroll(Scroll::Bottom));
    laws::lemma_does(bottom, 1, Step::SetViLine(Line((term.screen_lines - 1) as usize)));
}

/// The history is cleared by its action. A message is taken down by its action, where there is one,
/// and its lines are given back; without a message nothing happens.
pub proof fn law_clearing_actions(ctx: ActionContext, term: TermView, host: HostView)
    ensures
        of(Action::ClearHistory, ctx, term, host) == seq![EffectView::Do(Step::ClearHistory)],
        host.message_lines is Some ==> of(Action::ClearLogNotice, ctx, term, host) == seq![
            EffectView::Do(Step::PopMessage),
        ] && crate::action::context_after(Action::ClearLogNotice, ctx, host).display_update_pending,
        host.message_lines is None ==> of(Action::ClearLogNotice, ctx, term, host).len() == 0
            && crate::action::context_after(Action::ClearLogNotice, ctx, host) == ctx,
        ({
            let after = crate::action::context_after(Action::ClearLogNotice, ctx, host);
            after == (ActionContext {
                display_update_pending: after.display_update_pending,
                ..ctx
            })
        }),
{
}

/// A key that lets its characters through, and one that is bound to nothing, do nothing.
pub proof fn law_empty_actions(ctx: ActionContext, term: TermView, host: HostView)
    ensures
        of(Action::ReceiveChar, ctx, term, host).len() == 0,
        of(Action::Nothing, ctx, term, host).len() == 0,
        crate::action::context_after(Action::ReceiveChar, ctx, host) == ctx,
        crate::action::context_after(Action::Nothing, ctx, host) == ctx,
{
}

/// Vi mode is turned on and off by its action, and a motion is made as it is, with the cursor shown.
pub proof fn law_vi_actions(motion: ViMotion, ctx: ActionContext, term: TermView, host: HostView)
    ensures
        of(Action::ToggleViMode, ctx, term, host) == seq![EffectView::Do(Step::ToggleViMode)],
        ({
            let effects = of(Action::ViMotion(motion), ctx, term, host);
            &&& effects.len() > 0
            &&& effects[effects.len() - 1] == EffectView::Do(Step::ViMotion(motion))
            &&& effects.drop_last() == crate::context::typing_effects(
                ctx.config,
                host.blink_scheduled,
            )
            &&& laws::writes_nothing(effects)
        }),
        host.blink_scheduled ==> !crate::action::context_after(
            Action::ViMotion(motion),
            ctx,
            host,
        ).cursor_hidden,
        !host.blink_scheduled ==> crate::action::context_after(Action::ViMotion(motion), ctx, host)
            == ctx,
        ({
            let after = crate::action::context_after(Action::ViMotion(motion), ctx, host);
            after == (ActionContext { cursor_hidden: after.cursor_hidden, ..ctx })
        }),
{
    let effects = of(Action::ViMotion(motion), ctx, term, host);
    assert(effects.drop_last() =~= crate::context::typing_effects(
        ctx.config,
        host.blink_scheduled,
    ));
}

/// The vi mode selections start at the cursor, with whole cells, where nothing is selected, each of
/// its own kind.
pub proof fn law_vi_selections_start_at_the_cursor(
    ctx: ActionContext,
    term: TermView,
    host: HostView,
)
    requires
        term.selection is None || term.selection->0.is_empty,
    ensures
        forall|action: ViAction, ty: SelectionType|
            vi_kind(action) == Some(ty) ==> #[trigger] laws::does(
                of(Action::ViAction(action), ctx, term, host),
                Step::StartSelection(ty, term.vi_cursor, Direction::Left),
            ) && laws::does(of(Action::ViAction(action), ctx, term, host), Step::IncludeAll),
{
    assert forall|action: ViAction, ty: SelectionType|
        vi_kind(action) == Some(ty) implies #[trigger] laws::does(
        of(Action::ViAction(action), ctx, term, host),
        Step::StartSelection(ty, term.vi_cursor, Direction::Left),
    ) && laws::does(of(Action::ViAction(action), ctx, term, host), Step::IncludeAll) by {
        let effects = of(Action::ViAction(action), ctx, term, host);
        laws::lemma_does(
            effects,
            0,
            Step::StartSelection(ty, term.vi_cursor, Direction::Left),
        );
        laws::lemma_does(effects, 2, Step::IncludeAll);
    }
}

/// The kind of selection that a vi mode action is named after.
pub open spec fn vi_kind(action: ViAction) -> Option<SelectionType> {
    match action {
        ViAction::ToggleNormalSelection => Some(SelectionType::Simple),
        ViAction::ToggleLineSelection => Some(SelectionType::Lines),
        ViAction::ToggleBlockSelection => Some(SelectionType::Block),
        ViAction::ToggleSemanticSelection => Some(SelectionType::Semantic),
        _ => None,
    }
}

/// Where something is selected, a vi mode selection of the same kind drops it, and one of another
/// kind turns it into this kind, with whole cells.
pub proof fn law_vi_selections_change_the_kind(
    action: ViAction,
    ctx: ActionContext,
    term: TermView,
    host: HostView,
    selection: SelectionView,
)
    requires
        term.selection == Some(selection),
        !selection.is_empty,
        vi_kind(action) is Some,
    ensures
        ({
            let effects = of(Action::ViAction(action), ctx, term, host);
            let ty = vi_kind(action)->0;
            &&& selection.ty == ty ==> laws::does(effects, Step::DropSelection) && effects.len()
                == 2
            &&& selection.ty != ty ==> laws::does(effects, Step::SetSelectionType(ty))
                && laws::does(effects, Step::IncludeAll) && effects.len() == 3
        }),
{
    let effects = of(Action::ViAction(action), ctx, term, host);
    let ty = vi_kind(action)->0;
    if selection.ty == ty {
        laws::lemma_does(effects, 0, Step::DropSelection);
    } else {
        laws::lemma_does(effects, 0, Step::SetSelectionType(ty));
        laws::lemma_does(effects, 2, Step::IncludeAll);
    }
}

/// The address below the vi mode cursor is opened, whatever blocked it before; without one nothing
/// is opened.
pub proof fn law_vi_open(
    url: Option<Url>,
    ctx: ActionContext,
    term: TermView,
    host: HostView,
)
    ensures
        ({
            let action = Action::ViAction(ViAction::Open);
            let effects = crate::action::action_effects(action, ctx, term, host, url);
            let after = crate::action::context_after(action, ctx, host);
            &&& url is Some ==> effects == seq![EffectView::Do(Step::LaunchUrl(url->0))]
            &&& url is None ==> effects.len() == 0
            &&& after == (ActionContext {
                mouse: Mouse { block_url_launcher: false, ..ctx.mouse },
                ..ctx
            })
        }),
{
}

/// The next match lies in the direction of the search and the previous one in the other. The start
/// of a match is looked for backwards, and its end forwards.
pub proof fn law_vi_search_actions(ctx: ActionContext, term: TermView, host: HostView)
    ensures
        ({
            let direction = ctx.search_state@.direction;
            let other = if direction is Left {
                Direction::Right
            } else {
                Direction::Left
            };
            &&& of(Action::ViAction(ViAction::SearchNext), ctx, term, host) == seq![
                EffectView::Do(
                    Step::ViSearch { direction, side: Direction::Left, to_end: false },
                ),
            ]
            &&& of(Action::ViAction(ViAction::SearchPrevious), ctx, term, host) == seq![
                EffectView::Do(
                    Step::ViSearch { direction: other, side: Direction::Left, to_end: false },
                ),
            ]
            &&& of(Action::ViAction(ViAction::SearchStart), ctx, term, host) == seq![
                EffectView::Do(
                    Step::ViSearch {
                        direction: Direction::Left,
                        side: Direction::Left,
                        to_end: false,
                    },
                ),
            ]
            &&& of(Action::ViAction(ViAction::SearchEnd), ctx, term, host) == seq![
                EffectView::Do(
                    Step::ViSearch {
                        direction: Direction::Right,
                        side: Direction::Right,
                        to_end: true,
                    },
                ),
            ]
        }),
{
}

/// A search is started in the direction that its action names.
pub proof fn law_search_start_actions(ctx: ActionContext, term: TermView, host: HostView)
    ensures
        of(Action::SearchForward, ctx, term, host) == seq![
            EffectView::Do(Step::StartSearch(Direction::Right)),
        ],
        of(Action::SearchBackward, ctx, term, host) == seq![
            EffectView::Do(Step::StartSearch(Direction::Left)),
        ],
{
}

/// In a search, the next match is looked for in its direction and the previous one in the other; the
/// text is given up and begun again in the same direction; every other action is the one that its
/// name says.
pub proof fn law_search_actions(ctx: ActionContext, term: TermView, host: HostView)
    ensures
        ({
            let direction = ctx.search_state@.direction;
            let other = if direction is Left {
                Direction::Right
            } else {
                Direction::Left
            };
            let search = |action: SearchAction| of(Action::SearchAction(action), ctx, term, host);
            &&& search(SearchAction::SearchFocusNext) == seq![
                EffectView::Do(Step::AdvanceSearch(direction)),
            ]
            &&& search(SearchAction::SearchFocusPrevious) == seq![
                EffectView::Do(Step::AdvanceSearch(other)),
            ]
            &&& search(SearchAction::SearchClear) == seq![
                EffectView::Do(Step::CancelSearch),
                EffectView::Do(Step::StartSearch(direction)),
            ]
            &&& search(SearchAction::SearchConfirm) == seq![EffectView::Do(Step::ConfirmSearch)]
            &&& search(SearchAction::SearchCancel) == seq![EffectView::Do(Step::CancelSearch)]
            &&& search(SearchAction::SearchDeleteWord) == seq![EffectView::Do(Step::SearchPopWord)]
            &&& search(SearchAction::SearchHistoryPrevious) == seq![
                EffectView::Do(Step::SearchHistoryPrevious),
            ]
            &&& search(SearchAction::SearchHistoryNext) == seq![
                EffectView::Do(Step::SearchHistoryNext),
            ]
            &&& search(SearchAction::GrepMode) == seq![EffectView::Do(Step::ToggleGrepMode)]
        }),
{
}

/// An action changes the context only where it types, moves the vi mode cursor, opens an address,
/// takes a message down or changes the font size.
pub proof fn law_other_actions_change_nothing(action: Action, ctx: ActionContext, host: HostView)
    requires
        !(action is Esc || action is ViMotion || action is ClearLogNotice
            || action is IncreaseFontSize || action is DecreaseFontSize || action is ResetFontSize),
        action != Action::ViAction(ViAction::Open),
    ensures
        crate::action::context_after(action, ctx, host) == ctx,
{
}

} // verus!
