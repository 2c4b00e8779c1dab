//! Laws of the tabs.
use crate::context::{ActionContext, Mouse};
use crate::effect::{EffectView, Step};
use crate::tab_manager::{Tab, TabManager, TabRequest};
use crate::term::{ElementState, HostView, MouseButton, SizeInfo, TermMode};
use vstd::prelude::*;

verus! {

/// Closing the selected tab takes this tab away and no other, and the rest keep their order. With a
/// tab behind it that is not the last one left, the selection keeps its place, so the tab that
/// stood right behind the closed one is selected. Otherwise a neighbour of the closed tab is
/// selected, and never one further away.
pub proof fn law_closing_selects_a_neighbour<E, C, P, T>(
    before: TabManager<E, C, P, T>,
    after: TabManager<E, C, P, T>,
    closed: usize,
)
    requires
        before.selected_tab == Some(closed),
        closed < before.tabs@.len(),
        before.tabs@.len() > 1,
        after.tabs@ == before.remaining_tabs(),
        after.selected_tab == before.selection_after_removal(),
    ensures
        after.tabs@.len() == before.tabs@.len() - 1,
        forall|i: int| 0 <= i < closed ==> #[trigger] after.tabs@[i] == before.tabs@[i],
        forall|i: int|
            closed <= i < after.tabs@.len() ==> #[trigger] after.tabs@[i] == before.tabs@[i + 1],
        after.selected_tab is Some,
        after.selected_tab->0 < after.tabs@.len(),
        closed < after.tabs@.len() - 1 ==> {
            &&& after.selected_tab == Some(closed)
            &&& after.tabs@[closed as int] == before.tabs@[closed + 1]
        },
        closed >= after.tabs@.len() - 1 && closed > 0 ==> {
            &&& after.selected_tab == Some((closed - 1) as usize)
            &&& after.tabs@[closed - 1] == before.tabs@[closed - 1]
        },
        closed == 0 ==> after.selected_tab == Some(0usize) && after.tabs@[0] == before.tabs@[1],
{
}

/// Where no tab is selected, closing takes none away.
pub proof fn law_closing_without_selection<E, C, P, T>(before: TabManager<E, C, P, T>)
    requires
        before.selected_tab is None,
        before.tabs@.len() > 0,
    ensures
        before.remaining_tabs() == before.tabs@,
        before.tabs@.len() > 1 ==> before.selection_after_removal() is None,
        before.tabs@.len() == 1 ==> before.selection_after_removal() == Some(0usize),
{
}

/// A tab that is opened stands right behind the selected one, which stays the selected one until
/// the new tab is chosen; the tabs in front and behind keep their order. The first tab of a window
/// is selected at once.
pub proof fn law_new_tab_is_right_behind<E, C, P, T>(
    before: TabManager<E, C, P, T>,
    tab: Tab<P, T>,
    after: TabManager<E, C, P, T>,
)
    requires
        before.wf(),
        before.added(tab, after),
    ensures
        after.tabs@.len() == before.tabs@.len() + 1,
        before.selected_tab is None ==> {
            &&& after.selected_tab == Some(0usize)
            &&& after.tabs@ == seq![tab]
            &&& before.new_index() == 0
        },
        before.selected_tab matches Some(selected) ==> {
            &&& before.new_index() == selected + 1
            &&& after.tabs@[selected + 1] == tab
            &&& after.selected_tab == Some(selected)
            &&& forall|i: int| 0 <= i <= selected ==> #[trigger] after.tabs@[i] == before.tabs@[i]
            &&& forall|i: int|
                selected + 1 < i < after.tabs@.len() ==> #[trigger] after.tabs@[i]
                    == before.tabs@[i - 1]
        },
        after.size == before.size,
        after.to_exit == before.to_exit,
        after.current_working_directory_update == before.current_working_directory_update,
        after.event_proxy == before.event_proxy,
        after.config == before.config,
        after.tab_titles == before.tab_titles,
{
}

/// A tab is asked for with the size of the window and the directory that was noted, and with
/// nothing else.
pub proof fn law_tab_request<E, C, P, T>(
    tm: TabManager<E, C, P, T>,
    request: TabRequest,
    size: SizeInfo,
)
    requires
        tm.size == Some(size),
    ensures
        tm.is_request(request) <==> request == (TabRequest {
            size,
            working_directory: tm.current_working_directory_update,
        }),
{
}

/// The next tab is one further on and the previous one is one back; from either end they go on at
/// the other.
pub proof fn law_neighbours<E, C, P, T>(tm: TabManager<E, C, P, T>, selected: usize)
    requires
        tm.selected_tab == Some(selected),
        selected < tm.tabs@.len(),
    ensures
        ({
            let last = tm.tabs@.len() - 1;
            &&& selected < last ==> tm.next_index() == Some((selected + 1) as usize)
            &&& selected == last ==> tm.next_index() == Some(0usize)
            &&& selected > 0 ==> tm.previous_index() == Some((selected - 1) as usize)
            &&& selected == 0 ==> tm.previous_index() == Some(last as usize)
        }),
{
}

/// Where no tab is selected there is neither a next nor a previous one.
pub proof fn law_no_selection_no_neighbours<E, C, P, T>(tm: TabManager<E, C, P, T>)
    requires
        tm.selected_tab is None,
    ensures
        tm.next_index() is None,
        tm.previous_index() is None,
{
}

/// The selected tab is handed out as it is, and nothing changes. Where none is selected the first
/// one is, and becomes the selected one.
pub proof fn law_selected_tab_is_handed_out<
    E,
    C,
    P,
    T,
    F: FnOnce(TabRequest, &C, &E) -> Tab<P, T>,
>(before: TabManager<E, C, P, T>, spawn: F, tab: Tab<P, T>, after: TabManager<E, C, P, T>)
    requires
        before.handed_out(spawn, tab, after),
        before.selected_tab is None ==> before.tabs@.len() > 0,
    ensures
        before.selected_tab matches Some(i) ==> after == before && tab == before.tabs@[i as int],
        before.selected_tab is None ==> tab == before.tabs@[0] && after.tabs@ == before.tabs@
            && after.selected_tab == Some(0usize),
{
}

/// In a window without tabs, the tab that is handed out is a new one, which was asked for with the
/// size of the window and the noted directory, and is the only and selected one from then on.
pub proof fn law_window_without_tabs_gets_one<
    E,
    C,
    P,
    T,
    F: FnOnce(TabRequest, &C, &E) -> Tab<P, T>,
>(
    before: TabManager<E, C, P, T>,
    spawn: F,
    tab: Tab<P, T>,
    after: TabManager<E, C, P, T>,
    size: SizeInfo,
)
    requires
        before.handed_out(spawn, tab, after),
        before.selected_tab is None,
        before.tabs@.len() == 0,
        before.size == Some(size),
    ensures
        after.tabs@ == seq![tab],
        after.selected_tab == Some(0usize),
        call_ensures(
            spawn,
            (
                TabRequest { size, working_directory: before.current_working_directory_update },
                &before.config,
                &before.event_proxy,
            ),
            tab,
        ),
{
    let request = choose|request: TabRequest|
        {
            &&& #[trigger] before.is_request(request)
            &&& call_ensures(spawn, (request, &before.config, &before.event_proxy), tab)
        };
    law_tab_request(before, request, size);
}

/// A tab takes six columns of the tab bar: the first one parts it from the tab before and belongs
/// to none, and the other five belong to it. Behind the last tab there is none.
pub proof fn law_columns_of_a_tab(tab: int, column: int, tab_count: int)
    requires
        0 <= tab,
        0 <= column < 6,
        0 <= tab_count,
        tab_count * 6 <= usize::MAX,
    ensures
        column > 0 && tab < tab_count ==> crate::context::tab_at(6 * tab + column, tab_count)
            == Some(tab as usize),
        column == 0 || tab >= tab_count ==> crate::context::tab_at(6 * tab + column, tab_count)
            is None,
{
}

/// A press on a tab, on the first line of the window, selects this tab and does nothing else,
/// whichever button it is. A release selects no tab, and neither does a press on another line.
pub proof fn law_pressed_tab_is_selected(
    ctx: ActionContext,
    button: MouseButton,
    mode: TermMode,
    host: HostView,
    tab: usize,
    column: usize,
)
    requires
        1 <= column < 6,
        tab < host.tab_len,
        host.tab_len * 6 <= usize::MAX,
        ctx.mouse.column.0 == 6 * tab + column,
    ensures
        ctx.mouse.line.0 == 0 ==> crate::input::click_effects(
            ctx,
            button,
            ElementState::Pressed,
            mode,
            host,
        ) == seq![EffectView::Do(Step::SelectTab(tab))],
        ctx.mouse.line.0 == 0 ==> crate::input::context_after_click(
            ctx,
            button,
            ElementState::Pressed,
            host,
        ) == (ActionContext {
            mouse: crate::input::with_button(ctx.mouse, button, ElementState::Pressed),
            ..ctx
        }),
        crate::input::clicked_tab(ctx.mouse, ElementState::Released, host) is None,
        ctx.mouse.line.0 != 0 ==> crate::input::clicked_tab(
            ctx.mouse,
            ElementState::Pressed,
            host,
        ) is None,
{
    law_columns_of_a_tab(tab as int, column as int, host.tab_len as int);
}

/// The selected tab, and no other, is marked by a star in front of what is shown of it.
pub proof fn law_star_marks_the_selected_tab(title: Option<Seq<char>>, idx: int, selected: int)
    ensures
        ({
            let marked = crate::tab_manager::marked_title(title, idx, selected);
            let plain = match title {
                Some(t) => crate::tab_manager::shown_title(t),
                None => crate::tab_manager::shown_index(idx),
            };
            &&& idx == selected ==> marked == seq!['*'] + plain
            &&& idx != selected ==> marked == plain
        }),
{
    assert(Seq::<char>::empty() + crate::tab_manager::shown_index(idx)
        =~= crate::tab_manager::shown_index(idx));
    if title is Some {
        assert(Seq::<char>::empty() + crate::tab_manager::shown_title(title->0)
            =~= crate::tab_manager::shown_title(title->0));
    }
}

/// A title of printable ASCII is shown from its beginning, with blanks behind it up to eight
/// characters, and a longer one by its last eight characters.
pub proof fn law_shown_ascii_title(title: Seq<char>)
    requires
        forall|i: int| 0 <= i < title.len() ==> ' ' <= #[trigger] title[i] <= '~',
    ensures
        ({
            let shown = crate::tab_manager::shown_title(title);
            &&& shown.len() == 8
            &&& title.len() <= 8 ==> title.is_prefix_of(shown) && forall|i: int|
                title.len() <= i < 8 ==> #[trigger] shown[i] == ' '
            &&& title.len() >= 8 ==> shown.is_suffix_of(title)
        }),
{
    let shown = crate::tab_manager::shown_title(title);
    if title.len() == 8 {
        assert(shown =~= title);
    }
}

/// Another title that is short enough is shown whole, with blanks behind it up to eight columns.
pub proof fn law_shown_short_title(title: Seq<char>)
    requires
        vstd::utf8::encode_utf8(title).len() <= 8,
        !crate::text::printable_ascii(title),
    ensures
        ({
            let shown = crate::tab_manager::shown_title(title);
            let columns = crate::padding::display_columns(title);
            &&& title.is_prefix_of(shown)
            &&& forall|i: int| title.len() <= i < shown.len() ==> #[trigger] shown[i] == ' '
            &&& columns <= 8 ==> shown.len() == title.len() + 8 - columns
            &&& columns > 8 ==> shown == title
        }),
{
    let shown = crate::tab_manager::shown_title(title);
    if crate::padding::display_columns(title) > 8 {
        assert(shown =~= title);
    }
}

/// A tab without a title is shown by its number in decimal, with blanks behind it.
pub proof fn law_shown_number(idx: nat)
    requires
        crate::text::decimal(idx).len() <= 8,
    ensures
        ({
            let shown = crate::tab_manager::shown_index(idx as int);
            &&& shown.len() == 8
            &&& crate::text::decimal(idx).is_prefix_of(shown)
            &&& forall|i: int|
                crate::text::decimal(idx).len() <= i < 8 ==> #[trigger] shown[i] == ' '
        }),
{
}

/// A number too long for a tab is shown by its first eight digits.
pub proof fn law_shown_long_number(idx: nat)
    requires
        crate::text::decimal(idx).len() > 8,
    ensures
        crate::tab_manager::shown_index(idx as int).len() == 8,
        crate::tab_manager::shown_index(idx as int).is_prefix_of(crate::text::decimal(idx)),
{
}

/// A button that changes its state is noted as held or not held, and nothing else of the mouse
/// changes.
pub proof fn law_buttons_are_noted(mouse: Mouse, state: ElementState, number: u8)
    ensures
        crate::input::with_button(mouse, MouseButton::Left, state) == (Mouse {
            left_button_state: state,
            ..mouse
        }),
        crate::input::with_button(mouse, MouseButton::Middle, state) == (Mouse {
            middle_button_state: state,
            ..mouse
        }),
        crate::input::with_button(mouse, MouseButton::Right, state) == (Mouse {
            right_button_state: state,
            ..mouse
        }),
        crate::input::with_button(mouse, MouseButton::Other(number), state) == mouse,
{
}

} // verus!
