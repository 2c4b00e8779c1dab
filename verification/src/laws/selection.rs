//! Laws of selecting text with the mouse.
use crate::context::{ActionContext, ClickState, Mouse};
use crate::effect::{EffectView, Step, TimerId};
use crate::index::{Direction, Point, Side};
use crate::input::Processor;
use crate::laws;
use crate::mouse::{MouseMotion, MouseState};
use crate::term::{
    ClipboardType, CursorIcon, HostView, MouseButton, SelectionType, SizeInfo,
    TermMode, TermView,
};
use crate::word::Url;
use vstd::prelude::*;

verus! {

/// The cell of a point on a line of the screen: the last line where the point lies below it.
pub open spec fn on_screen(term: TermView, point: Point, cell: Point) -> bool {
    &&& cell.col == point.col
    &&& cell.line.0 == if point.line.0 < term.screen_lines {
        point.line.0 as int
    } else {
        term.screen_lines - 1
    }
}

/// A program gets the buttons: it asked for them, vi mode is off and Shift is not held.
pub open spec fn program_has_buttons(ctx: ActionContext, mode: TermMode) -> bool {
    mode.mouse_mode && !mode.vi && !ctx.modifiers.shift
}

/// Each further click of the left button selects more, starting in the cell that was clicked: one
/// click single cells, or a block with Ctrl, two clicks a word and three clicks whole lines.
pub proof fn law_left_clicks_select_more_and_more(
    before: ActionContext,
    after: ActionContext,
    now: u64,
    point: Point,
    cell: Point,
    term: TermView,
)
    requires
        term.screen_lines >= 1,
        !program_has_buttons(before, term.mode),
        after == (ActionContext {
            mouse: crate::mouse::pressed_mouse(before, MouseButton::Left, now, term),
            ..before
        }),
        on_screen(term, point, cell),
    ensures
        ({
            let effects = crate::mouse::press_effects(after, MouseButton::Left, point, term);
            let side = before.mouse.cell_side;
            &&& after.mouse.click_state is TripleClick ==> laws::does(
                effects,
                Step::StartSelection(SelectionType::Lines, cell, side),
            )
            &&& after.mouse.click_state is DoubleClick ==> laws::does(
                effects,
                Step::StartSelection(SelectionType::Semantic, cell, side),
            )
            &&& after.mouse.click_state is Click && before.modifiers.ctrl ==> laws::does(
                effects,
                Step::StartSelection(SelectionType::Block, cell, side),
            )
            &&& after.mouse.click_state is Click && !before.modifiers.ctrl ==> laws::does(
                effects,
                Step::StartSelection(SelectionType::Simple, cell, side),
            )
            &&& !(after.mouse.click_state is NoClick)
            &&& laws::does(effects, Step::MarkDirty)
            &&& effects.len() == 2 + 2 * laws::one_if(after.mouse.click_state is Click)
                + laws::one_if(term.mode.vi && before.search_state@.regex is None)
        }),
{
    let effects = crate::mouse::press_effects(after, MouseButton::Left, point, term);
    let side = before.mouse.cell_side;
    assert(cell == term.clamp_line(point));
    if after.mouse.click_state is Click {
        let ty = if before.modifiers.ctrl {
            SelectionType::Block
        } else {
            SelectionType::Simple
        };
        laws::lemma_does(effects, 2, Step::StartSelection(ty, cell, side));
        laws::lemma_does(effects, 3, Step::MarkDirty);
    } else {
        let ty = if after.mouse.click_state is DoubleClick {
            SelectionType::Semantic
        } else {
            SelectionType::Lines
        };
        laws::lemma_does(effects, 0, Step::StartSelection(ty, cell, side));
        laws::lemma_does(effects, 1, Step::MarkDirty);
    }
}

/// A single left click drops the selection before it starts another; a double or triple click
/// drops none.
pub proof fn law_single_click_drops_selection(ctx: ActionContext, point: Point, term: TermView)
    requires
        !program_has_buttons(ctx, term.mode),
    ensures
        ({
            let effects = crate::mouse::press_effects(ctx, MouseButton::Left, point, term);
            &&& ctx.mouse.click_state is Click ==> effects.len() > 0 && effects[0]
                == EffectView::Do(Step::DropSelection)
            &&& !(ctx.mouse.click_state is Click) ==> !laws::does(effects, Step::DropSelection)
        }),
{
    let effects = crate::mouse::press_effects(ctx, MouseButton::Left, point, term);
    assert forall|i: int|
        !(ctx.mouse.click_state is Click) && 0 <= i < effects.len() implies #[trigger] effects[i]
        != EffectView::Do(Step::DropSelection) by {}
}

/// The right button extends the selection that there is to the clicked cell, and selects cells, a
/// block, words or lines as the left button would. It never starts a selection.
pub proof fn law_right_click_extends(
    before: ActionContext,
    after: ActionContext,
    now: u64,
    point: Point,
    cell: Point,
    term: TermView,
)
    requires
        term.screen_lines >= 1,
        !program_has_buttons(before, term.mode),
        after == (ActionContext {
            mouse: crate::mouse::pressed_mouse(before, MouseButton::Right, now, term),
            ..before
        }),
        on_screen(term, point, cell),
    ensures
        ({
            let effects = crate::mouse::press_effects(after, MouseButton::Right, point, term);
            let clicks = after.mouse.click_state;
            &&& !(clicks is NoClick)
            &&& term.selection is None ==> effects.len() == 0
            &&& term.selection is Some ==> effects.len() == if term.mode.vi
                && before.search_state@.regex is None {
                6int
            } else {
                3
            }
            &&& term.selection is Some ==> laws::does(
                effects,
                Step::ExtendSelection(cell, before.mouse.cell_side),
            )
            &&& term.selection is Some && clicks is TripleClick ==> laws::does(
                effects,
                Step::SetSelectionType(SelectionType::Lines),
            )
            &&& term.selection is Some && clicks is DoubleClick ==> laws::does(
                effects,
                Step::SetSelectionType(SelectionType::Semantic),
            )
            &&& term.selection is Some && clicks is Click && before.modifiers.ctrl ==> laws::does(
                effects,
                Step::SetSelectionType(SelectionType::Block),
            )
            &&& term.selection is Some && clicks is Click && !before.modifiers.ctrl ==> laws::does(
                effects,
                Step::SetSelectionType(SelectionType::Simple),
            )
        }),
{
    let effects = crate::mouse::press_effects(after, MouseButton::Right, point, term);
    assert(cell == term.clamp_line(point));
    if term.selection is Some {
        let ty = match after.mouse.click_state {
            ClickState::TripleClick => SelectionType::Lines,
            ClickState::DoubleClick => SelectionType::Semantic,
            _ => if before.modifiers.ctrl {
                SelectionType::Block
            } else {
                SelectionType::Simple
            },
        };
        laws::lemma_does(effects, 0, Step::SetSelectionType(ty));
        laws::lemma_does(effects, 1, Step::ExtendSelection(cell, before.mouse.cell_side));
    }
}

/// In vi mode the cursor goes to the clicked cell, unless a search is on; outside of vi mode a
/// click never moves it.
pub proof fn law_vi_cursor_follows_clicks(
    ctx: ActionContext,
    point: Point,
    cell: Point,
    term: TermView,
)
    requires
        term.screen_lines >= 1,
        on_screen(term, point, cell),
    ensures
        ({
            let left = crate::mouse::press_effects(ctx, MouseButton::Left, point, term);
            let right = crate::mouse::press_effects(ctx, MouseButton::Right, point, term);
            &&& term.mode.vi && ctx.search_state@.regex is None ==> laws::does(
                left,
                Step::SetViCursor(cell),
            )
            &&& term.mode.vi && ctx.search_state@.regex is None && term.selection is Some && !(
            ctx.mouse.click_state is NoClick) ==> laws::does(right, Step::SetViCursor(cell))
            &&& !term.mode.vi || ctx.search_state@.regex is Some ==> forall|p: Point|
                !laws::does(left, Step::SetViCursor(p)) && !#[trigger] laws::does(
                    right,
                    Step::SetViCursor(p),
                )
        }),
{
    let left = crate::mouse::press_effects(ctx, MouseButton::Left, point, term);
    let right = crate::mouse::press_effects(ctx, MouseButton::Right, point, term);
    assert(cell == term.clamp_line(point));
    if term.mode.vi && ctx.search_state@.regex is None {
        laws::lemma_does(left, left.len() - 1, Step::SetViCursor(cell));
        if term.selection is Some && !(ctx.mouse.click_state is NoClick) {
            laws::lemma_does(right, right.len() - 1, Step::SetViCursor(cell));
        }
    }
}

/// The middle button and further ones select nothing: no instruction is given for them.
pub proof fn law_other_buttons_select_nothing(
    ctx: ActionContext,
    button: MouseButton,
    now: u64,
    point: Point,
    term: TermView,
)
    requires
        !program_has_buttons(ctx, term.mode),
        !(button is Left) && !(button is Right),
    ensures
        crate::mouse::press_effects(ctx, button, point, term).len() == 0,
        crate::mouse::pressed_mouse(ctx, button, now, term).click_state is NoClick,
{
}

/// Clicks in quick succession of one button count up; a click that comes too late, or of another
/// button, counts as the first. After the third the count starts over.
pub proof fn law_click_count(ctx: ActionContext, button: MouseButton, now: u64, term: TermView)
    requires
        !program_has_buttons(ctx, term.mode),
        button is Left || button is Right,
        now >= ctx.mouse.last_click_timestamp,
    ensures
        ({
            let before = ctx.mouse;
            let after = crate::mouse::pressed_mouse(ctx, button, now, term);
            let elapsed = now - before.last_click_timestamp;
            &&& after.last_click_timestamp == now
            &&& after.last_click_button == button
            &&& button != before.last_click_button ==> after.click_state is Click
            &&& before.click_state is NoClick ==> after.click_state is Click
            &&& before.click_state is TripleClick ==> after.click_state is Click
            &&& before.click_state is Click && button == before.last_click_button ==> (
            after.click_state is DoubleClick <==> elapsed < ctx.config.double_click_threshold)
            &&& before.click_state is DoubleClick && button == before.last_click_button ==> (
            after.click_state is TripleClick <==> elapsed < ctx.config.triple_click_threshold)
            &&& after.click_state is Click || after.click_state is DoubleClick
                || after.click_state is TripleClick
            &&& after.click_state is DoubleClick ==> before.click_state is Click
            &&& after.click_state is TripleClick ==> before.click_state is DoubleClick
        }),
{
}

/// A press counts clicks and nothing else: the pointer and the held buttons stay as they were. A
/// press that goes to a program counts as no click.
pub proof fn law_press_keeps_the_pointer(
    ctx: ActionContext,
    button: MouseButton,
    now: u64,
    term: TermView,
)
    ensures
        ({
            let before = ctx.mouse;
            let after = crate::mouse::pressed_mouse(ctx, button, now, term);
            &&& after.x == before.x && after.y == before.y
            &&& after.line == before.line && after.column == before.column
            &&& after.cell_side == before.cell_side
            &&& after.left_button_state == before.left_button_state
            &&& after.middle_button_state == before.middle_button_state
            &&& after.right_button_state == before.right_button_state
            &&& after.inside_text_area == before.inside_text_area
            &&& after.inside_tab_bar == before.inside_tab_bar
            &&& program_has_buttons(ctx, term.mode) ==> after.click_state is NoClick
                && after.last_click_timestamp == before.last_click_timestamp
                && after.last_click_button == before.last_click_button && after.block_url_launcher
                == before.block_url_launcher
        }),
{
}

/// While a press selects, an address opens on release only if the press was a first click of the
/// left button that dropped no selection.
pub proof fn law_press_decides_on_addresses(ctx: ActionContext, now: u64, term: TermView)
    requires
        !program_has_buttons(ctx, term.mode),
    ensures
        ({
            let after = crate::mouse::pressed_mouse(ctx, MouseButton::Left, now, term);
            &&& !after.block_url_launcher <==> (after.click_state is Click && (term.selection
                is None || term.selection->0.is_empty))
        }),
        crate::mouse::pressed_mouse(ctx, MouseButton::Right, now, term).block_url_launcher
            == ctx.mouse.block_url_launcher,
        crate::mouse::pressed_mouse(ctx, MouseButton::Middle, now, term).block_url_launcher
            == ctx.mouse.block_url_launcher,
{
}

/// To extend a selection changes its end to the given cell and has it drawn. In vi mode the cursor
/// goes there as well, unless a search is on, and the selection takes whole cells. Without a
/// selection nothing happens.
pub proof fn law_selection_extends_to_the_cell(
    term: TermView,
    searching: bool,
    point: Point,
    side: Side,
    cell: Point,
)
    requires
        term.screen_lines >= 1,
        on_screen(term, point, cell),
    ensures
        ({
            let effects = crate::context::selection_update(term, searching, point, side);
            let n = effects.len();
            &&& term.selection is None ==> n == 0
            &&& term.selection is Some ==> n > 1 && effects[0] == EffectView::Do(
                Step::ExtendSelection(cell, side),
            ) && effects[n - 1] == EffectView::Do(Step::MarkDirty)
            &&& term.selection is Some && term.mode.vi && !searching ==> n == 4 && laws::does(
                effects,
                Step::SetViCursor(cell),
            ) && laws::does(effects, Step::IncludeAll)
            &&& term.selection is Some && !(term.mode.vi && !searching) ==> n == 2
        }),
{
    let effects = crate::context::selection_update(term, searching, point, side);
    assert(cell == term.clamp_line(point));
    if term.selection is Some && term.mode.vi && !searching {
        laws::lemma_does(effects, 1, Step::SetViCursor(cell));
        laws::lemma_does(effects, 2, Step::IncludeAll);
    }
}

/// A started selection is of the kind, at the cell and on the side that were asked for, and is
/// drawn; a dropped one is drawn no more.
pub proof fn law_selection_starts_and_ends(ty: SelectionType, point: Point, side: Side)
    ensures
        crate::context::selection_start(ty, point, side) == seq![
            EffectView::Do(Step::StartSelection(ty, point, side)),
            EffectView::Do(Step::MarkDirty),
        ],
        crate::context::selection_clear() == seq![
            EffectView::Do(Step::DropSelection),
            EffectView::Do(Step::MarkDirty),
        ],
{
}

/// To ask for a kind of selection starts one where nothing is selected, drops the selection that
/// is of this kind already, and turns one of another kind into it without moving it.
pub proof fn law_selection_toggles(
    term: TermView,
    ty: SelectionType,
    point: Point,
    side: Side,
)
    ensures
        ({
            let effects = crate::context::selection_toggle(term, ty, point, side);
            let selected = term.selection is Some && !term.selection->0.is_empty;
            &&& laws::does(effects, Step::StartSelection(ty, point, side)) <==> !selected
            &&& laws::does(effects, Step::DropSelection) <==> selected && term.selection->0.ty == ty
            &&& laws::does(effects, Step::SetSelectionType(ty)) <==> selected
                && term.selection->0.ty != ty
            &&& laws::does(effects, Step::MarkDirty)
        }),
{
    let effects = crate::context::selection_toggle(term, ty, point, side);
    let selected = term.selection is Some && !term.selection->0.is_empty;
    laws::lemma_does(effects, 1, Step::MarkDirty);
    if !selected {
        laws::lemma_does(effects, 0, Step::StartSelection(ty, point, side));
    } else if term.selection->0.ty == ty {
        laws::lemma_does(effects, 0, Step::DropSelection);
    } else {
        laws::lemma_does(effects, 0, Step::SetSelectionType(ty));
    }
}

/// A pointer that moves with the left or the right button held extends the selection to its cell,
/// and reports nothing, unless a program gets the buttons.
pub proof fn law_dragging_extends(
    ctx: ActionContext,
    changed: bool,
    point: Point,
    cell: Point,
    term: TermView,
)
    requires
        term.screen_lines >= 1,
        on_screen(term, point, cell),
        ctx.mouse.left_button_state is Pressed || ctx.mouse.right_button_state is Pressed,
        !program_has_buttons(ctx, term.mode),
    ensures
        ({
            let effects = crate::mouse::motion_effects(ctx, changed, point, term);
            &&& term.selection is Some ==> laws::does(
                effects,
                Step::ExtendSelection(cell, ctx.mouse.cell_side),
            )
            &&& term.selection is None ==> effects.len() == 0
            &&& laws::writes_nothing(effects)
        }),
{
    let effects = crate::mouse::motion_effects(ctx, changed, point, term);
    assert(cell == term.clamp_line(point));
    if term.selection is Some {
        laws::lemma_does(effects, 0, Step::ExtendSelection(cell, ctx.mouse.cell_side));
    }
}

/// A motion leaves the pointer in the cell, on the side and in or out of the text area that the
/// motion says, and changes neither the buttons nor the clicks. Only a change of these opens or
/// leaves the tab bar, which is the first line, and keeps an address from opening.
pub proof fn law_motion_places_the_pointer(mouse: Mouse, motion: MouseMotion, size: SizeInfo)
    ensures
        ({
            let after = crate::mouse::moved_mouse(mouse, motion, size);
            let same = mouse.line == motion.point.line && mouse.column == motion.point.col
                && mouse.cell_side == after.cell_side && mouse.inside_text_area
                == motion.inside_text_area;
            &&& after.line == motion.point.line
            &&& after.column == motion.point.col
            &&& after.inside_text_area == motion.inside_text_area
            &&& after.cell_side == crate::mouse::side_at(after.x as int, size)
            &&& !same ==> (after.inside_tab_bar <==> motion.tab_bar_line == 0)
            &&& same ==> after.inside_tab_bar == mouse.inside_tab_bar
            &&& after.block_url_launcher == (mouse.block_url_launcher || !same)
            &&& after.left_button_state == mouse.left_button_state
            &&& after.middle_button_state == mouse.middle_button_state
            &&& after.right_button_state == mouse.right_button_state
            &&& after.click_state == mouse.click_state
            &&& after.last_click_button == mouse.last_click_button
            &&& after.last_click_timestamp == mouse.last_click_timestamp
        }),
{
}

/// The pointer is kept inside of the window: at its own place where it is inside, and otherwise at
/// the nearest pixel.
pub proof fn law_pointer_stays_in_the_window(mouse: Mouse, motion: MouseMotion, size: SizeInfo)
    requires
        size.width > 0,
        size.height > 0,
    ensures
        ({
            let after = crate::mouse::moved_mouse(mouse, motion, size);
            &&& after.x < size.width && after.y < size.height
            &&& 0 <= motion.x < size.width ==> after.x == motion.x
            &&& 0 <= motion.y < size.height ==> after.y == motion.y
            &&& motion.x < 0 ==> after.x == 0
            &&& motion.y < 0 ==> after.y == 0
            &&& motion.x >= size.width ==> after.x == size.width - 1
            &&& motion.y >= size.height ==> after.y == size.height - 1
        }),
{
}

/// A window without any width or height has no pixel for the pointer, which is then beyond all.
pub proof fn law_pointer_in_a_window_without_pixels(
    mouse: Mouse,
    motion: MouseMotion,
    size: SizeInfo,
)
    ensures
        size.width == 0 ==> crate::mouse::moved_mouse(mouse, motion, size).x == usize::MAX,
        size.height == 0 ==> crate::mouse::moved_mouse(mouse, motion, size).y == usize::MAX,
{
}

/// Inside of the grid the side of a cell goes by the distance to its left edge: the right side
/// begins behind half of the cell. Left of the grid is the left side, and right of it the right.
pub proof fn law_sides_split_the_cell(size: SizeInfo, column: nat, offset: nat)
    requires
        offset < size.cell_width,
    ensures
        ({
            let x = size.padding_x + column * size.cell_width + offset;
            &&& x < size.grid_end ==> (crate::mouse::side_at(x as int, size) == (
            if offset > size.half_cell_width {
                Direction::Right
            } else {
                Direction::Left
            }))
        }),
        forall|x: int|
            x >= size.grid_end ==> #[trigger] crate::mouse::side_at(x, size) == Direction::Right,
        forall|x: int|
            x < size.padding_x && x < size.grid_end ==> #[trigger] crate::mouse::side_at(x, size)
                == Direction::Left,
{
    let width = size.cell_width as int;
    vstd::arithmetic::div_mod::lemma_fundamental_div_mod_converse(
        column * width + offset,
        width,
        column as int,
        offset as int,
    );
    vstd::arithmetic::div_mod::lemma_small_mod(0, size.cell_width as nat);
}

/// A release ends the scrolling of the selection and copies it to the selection clipboard, and to
/// the system's only where the settings say so. A release of the left button on an address opens
/// it, and no other release does.
pub proof fn law_release_copies(
    ctx: ActionContext,
    button: MouseButton,
    term: TermView,
    state: MouseState,
)
    requires
        !program_has_buttons(ctx, term.mode),
    ensures
        ({
            let effects = crate::mouse::release_effects(ctx, button, term, state);
            &&& laws::does(effects, Step::Unschedule(TimerId::SelectionScrolling))
            &&& laws::does(effects, Step::CopySelection(ClipboardType::Selection))
            &&& laws::does(effects, Step::CopySelection(ClipboardType::Clipboard))
                <==> ctx.config.save_to_clipboard
            &&& forall|url: Url| #[trigger]
                laws::does(effects, Step::LaunchUrl(url)) <==> (button is Left && state
                    == MouseState::Url(url))
            &&& laws::writes_nothing(effects)
        }),
{
    let effects = crate::mouse::release_effects(ctx, button, term, state);
    let n = effects.len();
    laws::lemma_does(effects, n - 1, Step::CopySelection(ClipboardType::Selection));
    if ctx.config.save_to_clipboard {
        laws::lemma_does(effects, n - 2, Step::CopySelection(ClipboardType::Clipboard));
        laws::lemma_does(effects, n - 3, Step::Unschedule(TimerId::SelectionScrolling));
    } else {
        laws::lemma_does(effects, n - 2, Step::Unschedule(TimerId::SelectionScrolling));
    }
    if button is Left && state is Url {
        laws::lemma_does(effects, 0, Step::LaunchUrl(state->Url_0));
    }
}

/// Between the top and the bottom margin a dragged selection does not scroll. Above, it scrolls up
/// by a line more for each further step of the pointer, and below, down in the same way. A margin
/// takes at least its smallest height, and all that lies outside of the text.
pub proof fn law_scrolling_speeds_up(
    top: int,
    bottom: int,
    rest: int,
    steps: nat,
    min_height: int,
    step: int,
    size: SizeInfo,
)
    requires
        step > 0,
        0 <= rest < step,
        top >= min_height && top >= size.padding_y,
        top == min_height || top == size.padding_y,
        bottom <= size.height - min_height && bottom <= size.text_area_bottom,
        bottom == size.height - min_height || bottom == size.text_area_bottom,
    ensures
        bottom + (steps * step + rest) >= top ==> crate::mouse::scroll_rate(
            bottom + (steps * step + rest),
            min_height,
            step,
            size,
        ) == Some(-(steps as int + 1)),
        (steps > 0 || rest > 0) ==> crate::mouse::scroll_rate(
            top - (steps * step + rest),
            min_height,
            step,
            size,
        ) == Some(steps as int + 1),
        forall|at: int|
            top <= at < bottom ==> #[trigger] crate::mouse::scroll_rate(
                at,
                min_height,
                step,
                size,
            ) is None,
{
    let distance = steps * step + rest;
    assert(steps > 0 ==> steps * step >= step) by (nonlinear_arith)
        requires
            steps >= 0,
            step > 0,
    ;
    assert(steps == 0 ==> steps * step == 0) by (nonlinear_arith);
    assert(distance + step == (steps as int + 1) * step + rest) by (nonlinear_arith)
        requires
            distance == steps * step + rest,
    ;
    vstd::arithmetic::div_mod::lemma_fundamental_div_mod_converse(
        distance + step,
        step,
        steps as int + 1,
        rest,
    );
    assert(bottom + distance - bottom + step == distance + step);
    assert(top - (top - distance) + step == distance + step);
}

/// A selection that need not scroll stops scrolling. One that must is set to scroll by that many
/// lines: anew where it does not scroll yet, and otherwise in place of what it did.
pub proof fn law_selection_scrolls_at_the_rate(lines: isize)
    ensures
        crate::mouse::selection_scroll(None, true) == seq![
            EffectView::Do(Step::Unschedule(TimerId::SelectionScrolling)),
        ],
        crate::mouse::selection_scroll(None, false) == crate::mouse::selection_scroll(None, true),
        crate::mouse::selection_scroll(Some(lines as int), false) == seq![
            EffectView::Do(Step::ScheduleSelectionScroll(lines)),
        ],
        crate::mouse::selection_scroll(Some(lines as int), true) == seq![
            EffectView::Do(Step::UpdateSelectionScroll(lines)),
        ],
{
}

/// Only a held left or right button, with something selected, has the selection scroll: by the
/// height of the pointer, which may lie outside of the window.
pub proof fn law_only_drags_scroll(
    mouse: Mouse,
    motion: MouseMotion,
    term: TermView,
    host: HostView,
)
    ensures
        ({
            let effects = crate::mouse::drag_scrolling(mouse, motion, term, host);
            let held = mouse.left_button_state is Pressed || mouse.right_button_state is Pressed;
            let selected = term.selection is Some && !term.selection->0.is_empty;
            &&& held && selected ==> effects == crate::mouse::selection_scroll(
                crate::mouse::scroll_rate(
                    motion.y as int,
                    motion.min_scroll_height as int,
                    motion.scroll_step as int,
                    host.size,
                ),
                host.selection_scroll_scheduled,
            )
            &&& !(held && selected) ==> effects.len() == 0
        }),
{
}

/// The view that scrolls takes the end of the selection along: in vi mode to the cursor, where the
/// selection is not empty, and otherwise to the pointer, where a button is held.
pub proof fn law_scrolling_view_extends(
    ctx: ActionContext,
    term: TermView,
    pointer: Point,
    cell: Point,
)
    requires
        term.screen_lines >= 1,
        term.selection is Some,
        on_screen(
            term,
            if term.mode.vi && !term.selection->0.is_empty {
                term.vi_cursor
            } else {
                pointer
            },
            cell,
        ),
    ensures
        ({
            let effects = ctx.scrolled(term, pointer);
            let held = ctx.mouse.left_button_state is Pressed || ctx.mouse.right_button_state is Pressed;
            let by_cursor = term.mode.vi && !term.selection->0.is_empty;
            &&& by_cursor ==> laws::does(effects, Step::ExtendSelection(cell, Direction::Right))
            &&& !by_cursor && held ==> laws::does(
                effects,
                Step::ExtendSelection(cell, ctx.mouse.cell_side),
            )
            &&& !by_cursor && !held ==> effects.len() == 0
        }),
{
    let effects = ctx.scrolled(term, pointer);
    let held = ctx.mouse.left_button_state is Pressed || ctx.mouse.right_button_state is Pressed;
    if term.mode.vi && !term.selection->0.is_empty {
        assert(cell == term.clamp_line(term.vi_cursor));
        laws::lemma_does(effects, 0, Step::ExtendSelection(cell, Direction::Right));
    } else if held {
        assert(cell == term.clamp_line(pointer));
        laws::lemma_does(effects, 0, Step::ExtendSelection(cell, ctx.mouse.cell_side));
    }
}

/// The pointer is a hand on what a click opens, a text cursor on text, and an arrow elsewhere.
pub proof fn law_pointer_shapes(url: Url)
    ensures
        MouseState::Url(url).icon() == CursorIcon::Hand,
        MouseState::TabBarButton.icon() == CursorIcon::Hand,
        MouseState::MessageBarButton.icon() == CursorIcon::Hand,
        MouseState::Text.icon() == CursorIcon::Text,
        MouseState::Mouse.icon() == CursorIcon::Default,
        MouseState::MessageBar.icon() == CursorIcon::Default,
{
}

/// A motion sets the shape of the pointer, and has the display drawn exactly where the address
/// below the pointer is another than before.
pub proof fn law_addresses_are_highlighted(highlighted: Option<Url>, state: MouseState)
    ensures
        ({
            let effects = crate::mouse::pointer_effects(highlighted, state);
            let shown = match state {
                MouseState::Url(url) => Some(url),
                _ => None,
            };
            &&& laws::does(effects, Step::MarkDirty) <==> shown != highlighted
            &&& effects.len() >= 1
            &&& effects[effects.len() - 1] == EffectView::Do(Step::SetMouseCursor(state.icon()))
        }),
{
    let effects = crate::mouse::pointer_effects(highlighted, state);
    let shown = match state {
        MouseState::Url(url) => Some(url),
        _ => None,
    };
    if shown != highlighted {
        laws::lemma_does(effects, 0, Step::MarkDirty);
    }
}

/// Away from the bars, an address below the pointer comes first, then a program that asked for the
/// mouse and has it, as Shift is not held and vi mode is off, and then the text.
pub proof fn law_what_the_pointer_is_on(
    ctx: ActionContext,
    term: TermView,
    host: HostView,
    url: Option<Url>,
)
    requires
        !ctx.mouse.inside_tab_bar,
        host.message_lines is None,
    ensures
        ({
            let state = crate::mouse::state_of(ctx, term, host, url);
            &&& url is Some ==> state == MouseState::Url(url->0)
            &&& url is None && program_has_buttons(ctx, term.mode) ==> state is Mouse
            &&& url is None && !program_has_buttons(ctx, term.mode) ==> state is Text
        }),
{
}

/// In the tab bar the pointer is on a button exactly where it is on a tab. Below the last line of
/// the terminal, which the bar of a search moves down by a line, it is on the message bar, where
/// there is one.
pub proof fn law_pointer_on_the_bars(mouse: Mouse, searching: bool, host: HostView)
    ensures
        ({
            let bar = crate::mouse::bar_state(mouse, searching, host);
            let lines = if searching {
                host.size.screen_lines + 1
            } else {
                host.size.screen_lines as int
            };
            let end = host.size.padding_y + host.size.cell_height * lines;
            &&& mouse.inside_tab_bar && crate::context::tab_at(
                mouse.column.0 as int,
                host.tab_len as int,
            ) is Some ==> bar == Some(MouseState::TabBarButton)
            &&& mouse.inside_tab_bar && crate::context::tab_at(
                mouse.column.0 as int,
                host.tab_len as int,
            ) is None ==> bar is None
            &&& !mouse.inside_tab_bar && (host.message_lines is None || mouse.y <= end)
                ==> bar is None
            &&& !mouse.inside_tab_bar && host.message_lines is Some && mouse.y > end ==> bar
                == Some(MouseState::MessageBar)
        }),
{
}

/// A motion gives, in this order, the scrolling of a dragged selection, the shape of the pointer,
/// and, where the cell, its side or the text area is another, what follows from that. The shape goes
/// by the new place in the window and the cell before the motion.
pub proof fn law_motion_gives_all_three(
    processor: Processor,
    motion: MouseMotion,
    term: TermView,
    host: HostView,
    moved: ActionContext,
    placed: ActionContext,
)
    requires
        moved == (ActionContext {
            mouse: crate::mouse::moved_mouse(processor.ctx.mouse, motion, host.size),
            ..processor.ctx
        }),
        placed == (ActionContext {
            mouse: Mouse { x: moved.mouse.x, y: moved.mouse.y, ..processor.ctx.mouse },
            ..processor.ctx
        }),
    ensures
        ({
            let outcome = processor.motion_outcome(motion, term, host);
            let scrolls = crate::mouse::drag_scrolling(processor.ctx.mouse, motion, term, host);
            let shape = crate::mouse::pointer_effects(
                processor.highlighted_url,
                crate::mouse::state_of(placed, term, host, motion.url),
            );
            let before = processor.ctx.mouse;
            let same_cell = before.line == motion.point.line && before.column == motion.point.col;
            let same = same_cell && before.cell_side == moved.mouse.cell_side
                && before.inside_text_area == motion.inside_text_area;
            &&& same ==> outcome == scrolls + shape
            &&& !same ==> outcome == scrolls + shape + crate::mouse::motion_effects(
                moved,
                !same_cell,
                motion.point,
                term,
            )
        }),
{
}

/// At first no button is held and nothing was clicked.
pub proof fn law_mouse_at_first(now: u64)
    ensures
        ({
            let mouse = Mouse::initial(now);
            &&& mouse.left_button_state is Released
            &&& mouse.middle_button_state is Released
            &&& mouse.right_button_state is Released
            &&& mouse.click_state is NoClick
            &&& mouse.last_click_timestamp == now
            &&& mouse.last_click_button is Left
            &&& mouse.x == 0 && mouse.y == 0
            &&& mouse.line.0 == 0 && mouse.column.0 == 0
            &&& mouse.cell_side is Left
            &&& !mouse.block_url_launcher
            &&& !mouse.inside_tab_bar && !mouse.inside_text_area
        }),
{
}

} // verus!
