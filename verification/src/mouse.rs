//! Handle input from the mouse.
use crate::context;
use crate::context::{ActionContext, ClickState, Mouse};
use crate::effect;
use crate::effect::{Effect, EffectView, Step, TimerId};
use crate::index::{Direction, Point, Side};
use crate::input::Processor;
use crate::report;
use crate::term::{
    ClipboardType, CursorIcon, ElementState, HostView, MouseButton, SelectionType, SizeInfo,
    TermMode, TermView,
};
use crate::word::Url;
use vstd::prelude::*;

verus! {

/// Milliseconds between scrolls during selection outside of the boundaries.
pub const SELECTION_SCROLLING_INTERVAL: u64 = 15;

/// What the mouse is over.
#[derive(Clone, Copy, PartialEq, Eq, Structural, Debug)]
pub enum MouseState {
    Url(Url),
    MessageBar,
    MessageBarButton,
    TabBarButton,
    Mouse,
    Text,
}

impl MouseState {
    /// The shape of the cursor: a hand over everything that can be clicked.
    pub open spec fn icon(self) -> CursorIcon {
        match self {
            MouseState::Url(_) | MouseState::MessageBarButton | MouseState::TabBarButton =>
                CursorIcon::Hand,
            MouseState::Text => CursorIcon::Text,
            _ => CursorIcon::Default,
        }
    }
}

impl From<MouseState> for CursorIcon {
    fn from(mouse_state: MouseState) -> (r: CursorIcon) {
        match mouse_state {
            MouseState::Url(_) | MouseState::MessageBarButton | MouseState::TabBarButton =>
                CursorIcon::Hand,
            MouseState::Text => CursorIcon::Text,
            _ => CursorIcon::Default,
        }
    }
}

impl vstd::std_specs::convert::FromSpecImpl<MouseState> for CursorIcon {
    open spec fn obeys_from_spec() -> bool {
        true
    }

    open spec fn from_spec(mouse_state: MouseState) -> CursorIcon {
        mouse_state.icon()
    }
}

/// A motion of the mouse, as the host measured it.
#[derive(Clone, Copy, Debug)]
pub struct MouseMotion {
    /// The position in the window, which may lie outside of it.
    pub x: i32,
    pub y: i32,
    /// The nearest position inside of the window lies in the grid.
    pub inside_text_area: bool,
    /// The cell at that position.
    pub point: Point,
    /// The line at that position, with the tab bar counted as the first.
    pub tab_bar_line: usize,
    /// The address that is highlighted there.
    pub url: Option<Url>,
    /// The least height of the areas at the top and the bottom where a selection scrolls.
    pub min_scroll_height: i32,
    /// The pixels for each further line that a selection scrolls by.
    pub scroll_step: i32,
}

/// The nearest pixel of a window of `limit` pixels; the largest number where it has none.
pub open spec fn nearest_pixel(v: int, limit: int) -> int {
    if limit == 0 {
        usize::MAX as int
    } else if v < 0 {
        0
    } else if v >= limit {
        limit - 1
    } else {
        v
    }
}

/// Moves a coordinate into the window.
pub fn clamp_pixel(v: i32, limit: i32) -> (r: usize)
    requires
        limit >= 0,
    ensures
        r == nearest_pixel(v as int, limit as int),
{
    if limit == 0 {
        usize::MAX
    } else if v < 0 {
        0
    } else if v >= limit {
        (limit - 1) as usize
    } else {
        v as usize
    }
}

/// The half of a cell that a pixel column lies in; right of the grid it is the right half.
pub open spec fn side_at(x: int, size: SizeInfo) -> Side {
    let cell_x = (if x >= size.padding_x {
        x - size.padding_x
    } else {
        0
    }) % size.cell_width as int;
    if cell_x > size.half_cell_width || x >= size.grid_end {
        Direction::Right
    } else {
        Direction::Left
    }
}

/// The half of a cell that a pixel column lies in.
pub fn get_mouse_side(x: usize, size: &SizeInfo) -> (r: Side)
    requires
        size.cell_width >= 1,
    ensures
        r == side_at(x as int, *size),
{
    let within: usize = if x >= size.padding_x {
        x - size.padding_x
    } else {
        0
    };
    let cell_x: usize = within % size.cell_width;
    if cell_x > size.half_cell_width || x >= size.grid_end {
        Direction::Right
    } else {
        Direction::Left
    }
}

/// The pixel row in which the last line of the terminal, or of the search bar, ends.
pub open spec fn terminal_end(size: SizeInfo, searching: bool) -> int {
    size.padding_y + size.cell_height * (size.screen_lines + if searching {
        1int
    } else {
        0
    })
}

/// What the mouse is over of the tab bar and the message bar. The message bar lies below the end
/// of the terminal, and its button counts only in the last columns above the terminal's last line.
pub open spec fn bar_state(mouse: Mouse, searching: bool, host: HostView) -> Option<MouseState> {
    let end = terminal_end(host.size, searching);
    if mouse.inside_tab_bar {
        if context::tab_at(mouse.column.0 as int, host.tab_len as int) is Some {
            Some(MouseState::TabBarButton)
        } else {
            None
        }
    } else if host.message_lines is None || mouse.y <= end {
        None
    } else if mouse.y <= end - host.size.cell_height && mouse.column.0 + host.close_button_width
        >= host.size.cols {
        Some(MouseState::MessageBarButton)
    } else {
        Some(MouseState::MessageBar)
    }
}

/// The numbers that are compared fit into a machine word.
pub open spec fn bars_fit(mouse: Mouse, searching: bool, host: HostView) -> bool {
    let end = terminal_end(host.size, searching);
    if mouse.inside_tab_bar {
        host.tab_len * context::TAB_WIDTH <= usize::MAX
    } else {
        &&& end <= usize::MAX
        &&& searching ==> host.size.screen_lines < usize::MAX
        &&& host.message_lines is Some && mouse.y > end ==> end >= host.size.cell_height
        &&& mouse.column.0 + host.close_button_width <= usize::MAX
    }
}

/// Check mouse state in relation to the message bar and the tab bar.
pub fn message_or_tab_bar_mouse_state(mouse: &Mouse, searching: bool, host: &HostView) -> (r:
    Option<MouseState>)
    requires
        bars_fit(*mouse, searching, *host),
    ensures
        r == bar_state(*mouse, searching, *host),
{
    if mouse.inside_tab_bar {
        match context::find_tab(mouse.column, host.tab_len) {
            Some(_) => Some(MouseState::TabBarButton),
            None => None,
        }
    } else {
        // Since search is above the message bar, the button is offset by search's height.
        let search_height: usize = if searching {
            1
        } else {
            0
        };
        let size = &host.size;
        let lines: usize = size.screen_lines + search_height;
        assert(size.cell_height * lines >= 0) by (nonlinear_arith)
            requires
                lines >= 0,
                size.cell_height >= 0,
        ;
        let terminal_end: usize = size.padding_y + size.cell_height * lines;
        if host.message_lines.is_none() || mouse.y <= terminal_end {
            None
        } else if mouse.y <= terminal_end - size.cell_height && mouse.column.0
            + host.close_button_width >= size.cols {
            Some(MouseState::MessageBarButton)
        } else {
            Some(MouseState::MessageBar)
        }
    }
}

/// What the mouse is over. The bars come first, to ignore addresses in the message bar.
pub open spec fn state_of(
    ctx: ActionContext,
    term: TermView,
    host: HostView,
    url: Option<Url>,
) -> MouseState {
    let bar = bar_state(ctx.mouse, ctx.searching(), host);
    if bar is Some {
        bar->0
    } else if url is Some {
        MouseState::Url(url->0)
    } else if !ctx.modifiers.shift && term.mode.reports_mouse() {
        MouseState::Mouse
    } else {
        MouseState::Text
    }
}

/// A change of the highlighted address has to be drawn.
pub open spec fn url_change(highlighted: Option<Url>, state: MouseState) -> Seq<EffectView> {
    let shown = if state is Url {
        Some(state->Url_0)
    } else {
        None
    };
    if shown != highlighted {
        seq![effect::act(Step::MarkDirty)]
    } else {
        Seq::empty()
    }
}

/// The lines by which a selection scrolls while the mouse is at a pixel row, up where positive:
/// none inside of the text area, and one more for each `step` of pixels outside of it.
pub open spec fn scroll_rate(y: int, min_height: int, step: int, size: SizeInfo) -> Option<int> {
    let end_top = if min_height >= size.padding_y {
        min_height
    } else {
        size.padding_y as int
    };
    let start_bottom = if size.height - min_height <= size.text_area_bottom {
        size.height - min_height
    } else {
        size.text_area_bottom as int
    };
    if y < end_top {
        Some((end_top - y + step) / step)
    } else if y >= start_bottom {
        Some(-((y - start_bottom + step) / step))
    } else {
        None
    }
}

/// The distances that are computed fit into a machine word.
pub open spec fn scroll_fits(y: int, min_height: int, step: int, size: SizeInfo) -> bool {
    let end_top = if min_height >= size.padding_y {
        min_height
    } else {
        size.padding_y as int
    };
    let bottom = size.height - min_height;
    let start_bottom = if bottom <= size.text_area_bottom {
        bottom
    } else {
        size.text_area_bottom as int
    };
    &&& step > 0
    &&& size.padding_y <= i32::MAX
    &&& i32::MIN <= bottom <= i32::MAX
    &&& y < end_top ==> end_top - y + step <= i32::MAX
    &&& y >= end_top && y >= start_bottom ==> start_bottom - y - step >= i32::MIN
}

/// The timer that scrolls a selection is started, changed or stopped.
pub open spec fn selection_scroll(rate: Option<int>, scheduled: bool) -> Seq<EffectView> {
    match rate {
        None => seq![effect::act(Step::Unschedule(TimerId::SelectionScrolling))],
        Some(lines) => if scheduled {
            seq![effect::act(Step::UpdateSelectionScroll(lines as isize))]
        } else {
            seq![effect::act(Step::ScheduleSelectionScroll(lines as isize))]
        },
    }
}

/// Handle automatic scrolling when selecting above/below the window.
pub fn update_selection_scrolling(
    mouse_y: i32,
    min_height: i32,
    step: i32,
    size: &SizeInfo,
    scheduled: bool,
) -> (r: Vec<Effect>)
    requires
        scroll_fits(mouse_y as int, min_height as int, step as int, *size),
    ensures
        effect::values(r) == selection_scroll(
            scroll_rate(mouse_y as int, min_height as int, step as int, *size),
            scheduled,
        ),
{
    let padding_y: i32 = size.padding_y as i32;
    let end_top: i32 = if min_height >= padding_y {
        min_height
    } else {
        padding_y
    };
    let start_bottom: i32 = if size.height - min_height <= size.text_area_bottom {
        size.height - min_height
    } else {
        size.text_area_bottom
    };
    let mut fx = effect::none();
    let ghost rate = scroll_rate(mouse_y as int, min_height as int, step as int, *size);
    let delta: isize;
    if mouse_y < end_top {
        let distance: u32 = (end_top - mouse_y + step) as u32;
        let lines: u32 = distance / step as u32;
        proof {
            lemma_quotient_bound(distance as int, step as int);
        }
        delta = lines as isize;
    } else if mouse_y >= start_bottom {
        let distance: u32 = (mouse_y as i64 - start_bottom as i64 + step as i64) as u32;
        let lines: u32 = distance / step as u32;
        proof {
            lemma_quotient_bound(distance as int, step as int);
        }
        delta = (-(lines as i64)) as isize;
    } else {
        effect::step(&mut fx, Step::Unschedule(TimerId::SelectionScrolling));
        return fx;
    }
    assert(delta == rate->0);
    if scheduled {
        effect::step(&mut fx, Step::UpdateSelectionScroll(delta));
    } else {
        effect::step(&mut fx, Step::ScheduleSelectionScroll(delta));
    }
    fx
}

proof fn lemma_quotient_bound(a: int, b: int)
    requires
        0 <= a,
        0 < b,
    ensures
        0 <= a / b <= a,
{
    assert(0 <= a / b <= a) by (nonlinear_arith)
        requires
            0 <= a,
            0 < b,
    ;
}

/// Above the text area a selection scrolls up by at least a line, and below it down; further
/// away it scrolls no slower.
pub proof fn law_selection_scrolls_away_from_text(
    y: int,
    further: int,
    min_height: int,
    step: int,
    size: SizeInfo,
)
    requires
        step > 0,
        further >= 0,
    ensures
        scroll_rate(y, min_height, step, size) matches Some(rate) ==> rate >= 1 || rate <= -1,
        scroll_rate(y, min_height, step, size) matches Some(rate) ==> rate > 0 ==> (scroll_rate(
            y - further,
            min_height,
            step,
            size,
        ) matches Some(faster) && faster >= rate),
        scroll_rate(y, min_height, step, size) matches Some(rate) ==> rate < 0 ==> (scroll_rate(
            y + further,
            min_height,
            step,
            size,
        ) matches Some(faster) && faster <= rate),
{
    let end_top = if min_height >= size.padding_y {
        min_height
    } else {
        size.padding_y as int
    };
    let start_bottom = if size.height - min_height <= size.text_area_bottom {
        size.height - min_height
    } else {
        size.text_area_bottom as int
    };
    if y < end_top {
        lemma_at_least_one(end_top - y + step, step);
        vstd::arithmetic::div_mod::lemma_div_is_ordered(
            end_top - y + step,
            end_top - (y - further) + step,
            step,
        );
    } else if y >= start_bottom {
        lemma_at_least_one(y - start_bottom + step, step);
        vstd::arithmetic::div_mod::lemma_div_is_ordered(
            y - start_bottom + step,
            y + further - start_bottom + step,
            step,
        );
    }
}

proof fn lemma_at_least_one(a: int, b: int)
    requires
        0 < b <= a,
    ensures
        a / b >= 1,
{
    vstd::arithmetic::div_mod::lemma_div_is_ordered(b, a, b);
    vstd::arithmetic::div_mod::lemma_div_by_self(b);
}

/// The report of a button at the mouse, where one can be made.
pub open spec fn reported(
    ctx: ActionContext,
    mode: TermMode,
    button: int,
    state: ElementState,
) -> Seq<EffectView> {
    let mouse = ctx.mouse;
    let bytes = report::button_report(
        button,
        state,
        ctx.modifiers,
        mouse.line.0 as int,
        mouse.column.0 as int,
        mode,
    );
    if bytes is Some {
        seq![EffectView::WriteToPty(bytes->0)]
    } else {
        Seq::empty()
    }
}

/// The numbers of the line and the column fit into a machine word.
pub open spec fn can_report(mouse: Mouse, mode: TermMode) -> bool {
    mode.sgr_mouse ==> mouse.line.0 < usize::MAX && mouse.column.0 < usize::MAX
}

/// Where the highlighted address changes and what the cursor looks like.
pub open spec fn pointer_effects(highlighted: Option<Url>, state: MouseState) -> Seq<EffectView> {
    url_change(highlighted, state).push(effect::act(Step::SetMouseCursor(state.icon())))
}

/// The number by which a motion is reported: by the button that is held, if any.
pub open spec fn motion_code(mouse: Mouse, mode: TermMode) -> Option<int> {
    if mouse.left_button_state is Pressed {
        Some(32)
    } else if mouse.middle_button_state is Pressed {
        Some(33)
    } else if mouse.right_button_state is Pressed {
        Some(34)
    } else if mode.mouse_motion {
        Some(35)
    } else {
        None
    }
}

/// The mouse once it has moved: its cell changes only together with its side or its area.
pub open spec fn moved_mouse(mouse: Mouse, motion: MouseMotion, size: SizeInfo) -> Mouse {
    let placed = placed_mouse(mouse, motion, size);
    if stays(mouse, motion, size) {
        placed
    } else {
        Mouse {
            inside_tab_bar: motion.tab_bar_line < 1,
            inside_text_area: motion.inside_text_area,
            cell_side: side_at(placed.x as int, size),
            line: motion.point.line,
            column: motion.point.col,
            block_url_launcher: true,
            ..placed
        }
    }
}

/// The mouse stays in its cell.
pub open spec fn same_cell(mouse: Mouse, motion: MouseMotion) -> bool {
    motion.point.line == mouse.line && motion.point.col == mouse.column
}

/// The mouse stays in its half of the cell.
pub open spec fn stays(mouse: Mouse, motion: MouseMotion, size: SizeInfo) -> bool {
    &&& same_cell(mouse, motion)
    &&& mouse.cell_side == side_at(placed_mouse(mouse, motion, size).x as int, size)
    &&& mouse.inside_text_area == motion.inside_text_area
}

/// The mouse, placed at the pixel but not in a cell yet.
pub open spec fn placed_mouse(mouse: Mouse, motion: MouseMotion, size: SizeInfo) -> Mouse {
    Mouse {
        x: nearest_pixel(motion.x as int, size.width as int) as usize,
        y: nearest_pixel(motion.y as int, size.height as int) as usize,
        ..mouse
    }
}

/// What a motion does to the selection or tells the program in the terminal.
pub open spec fn motion_effects(
    ctx: ActionContext,
    cell_changed: bool,
    point: Point,
    term: TermView,
) -> Seq<EffectView> {
    let mouse = ctx.mouse;
    let code = motion_code(mouse, term.mode);
    if (mouse.left_pressed() || mouse.right_pressed()) && (ctx.modifiers.shift
        || !term.mode.reports_mouse()) {
        context::selection_update(term, ctx.searching(), point, mouse.cell_side)
    } else if cell_changed && point.line.0 < term.screen_lines && (term.mode.mouse_motion
        || term.mode.mouse_drag) && code is Some {
        reported(ctx, term.mode, code->0, ElementState::Pressed)
    } else {
        Seq::empty()
    }
}

/// A button is held, and something is selected.
pub open spec fn drags(mouse: Mouse, term: TermView) -> bool {
    !term.nothing_selected() && (mouse.left_pressed() || mouse.right_pressed())
}

/// While a button is held, a selection scrolls with the mouse.
pub open spec fn drag_scrolling(
    mouse: Mouse,
    motion: MouseMotion,
    term: TermView,
    host: HostView,
) -> Seq<EffectView> {
    if drags(mouse, term) {
        selection_scroll(
            scroll_rate(
                motion.y as int,
                motion.min_scroll_height as int,
                motion.scroll_step as int,
                host.size,
            ),
            host.selection_scroll_scheduled,
        )
    } else {
        Seq::empty()
    }
}

fn place_mouse(mouse: &Mouse, motion: &MouseMotion, size: &SizeInfo) -> (r: Mouse)
    requires
        size.wf(),
    ensures
        r == placed_mouse(*mouse, *motion, *size),
{
    Mouse {
        x: clamp_pixel(motion.x, size.width),
        y: clamp_pixel(motion.y, size.height),
        ..*mouse
    }
}

fn mouse_stays(mouse: &Mouse, motion: &MouseMotion, size: &SizeInfo) -> (r: bool)
    requires
        size.wf(),
    ensures
        r == stays(*mouse, *motion, *size),
{
    let x: usize = clamp_pixel(motion.x, size.width);
    motion.point.line.0 == mouse.line.0 && motion.point.col.0 == mouse.column.0
        && mouse.cell_side == get_mouse_side(x, size) && mouse.inside_text_area
        == motion.inside_text_area
}

fn move_mouse(mouse: &Mouse, motion: &MouseMotion, size: &SizeInfo) -> (r: Mouse)
    requires
        size.wf(),
        !stays(*mouse, *motion, *size),
    ensures
        r == moved_mouse(*mouse, *motion, *size),
{
    let placed = place_mouse(mouse, motion, size);
    Mouse {
        inside_tab_bar: motion.tab_bar_line < 1,
        inside_text_area: motion.inside_text_area,
        cell_side: get_mouse_side(placed.x, size),
        line: motion.point.line,
        column: motion.point.col,
        // Don't launch URLs if mouse has moved.
        block_url_launcher: true,
        ..placed
    }
}

impl Processor {
    /// This processor with another state of the mouse.
    pub open spec fn with_mouse(self, mouse: Mouse) -> Processor {
        Processor { ctx: ActionContext { mouse, ..self.ctx }, ..self }
    }

    /// Report a button at the mouse.
    pub fn mouse_report(&self, button: u8, state: ElementState, mode: &TermMode) -> (r: Vec<Effect>)
        requires
            button <= 195,
            can_report(self.ctx.mouse, *mode),
        ensures
            effect::values(r) == reported(self.ctx, *mode, button as int, state),
    {
        let mut fx = effect::none();
        let bytes = report::mouse_report(
            button,
            state,
            &self.ctx.modifiers,
            self.ctx.mouse.line,
            self.ctx.mouse.column,
            mode,
        );
        if let Some(bytes) = bytes {
            effect::emit(&mut fx, Effect::WriteToPty(bytes));
        }
        fx
    }

    /// Location of the mouse cursor.
    pub fn mouse_state(&self, term: &TermView, host: &HostView, url: Option<Url>) -> (r: MouseState)
        requires
            bars_fit(self.ctx.mouse, self.ctx.searching(), *host),
        ensures
            r == state_of(self.ctx, *term, *host, url),
    {
        let bar = message_or_tab_bar_mouse_state(
            &self.ctx.mouse,
            self.ctx.search_active(),
            host,
        );
        if let Some(state) = bar {
            return state;
        }
        if let Some(url) = url {
            return MouseState::Url(url);
        }
        if !self.ctx.modifiers.shift && context::mouse_mode(&term.mode) {
            MouseState::Mouse
        } else {
            MouseState::Text
        }
    }

    /// Trigger redraw when URL highlight changed.
    fn update_url_state(&self, mouse_state: &MouseState) -> (r: Vec<Effect>)
        ensures
            effect::values(r) == url_change(self.highlighted_url, *mouse_state),
    {
        let mut fx = effect::none();
        match mouse_state {
            MouseState::Url(url) => match &self.highlighted_url {
                Some(highlighted) => {
                    if *url != *highlighted {
                        effect::step(&mut fx, Step::MarkDirty);
                    }
                },
                None => {
                    effect::step(&mut fx, Step::MarkDirty);
                },
            },
            _ => {
                if self.highlighted_url.is_some() {
                    effect::step(&mut fx, Step::MarkDirty);
                }
            },
        }
        fx
    }

    pub fn show_pointer(&self, state: MouseState) -> (r: Vec<Effect>)
        ensures
            effect::values(r) == pointer_effects(self.highlighted_url, state),
    {
        let mut fx = self.update_url_state(&state);
        effect::step(&mut fx, Step::SetMouseCursor(CursorIcon::from(state)));
        fx
    }

    /// A motion extends the selection or is reported to the program in the terminal.
    fn drag(&self, cell_changed: bool, point: Point, term: &TermView) -> (r: Vec<Effect>)
        requires
            term.wf(),
            can_report(self.ctx.mouse, term.mode),
        ensures
            effect::values(r) == motion_effects(self.ctx, cell_changed, point, *term),
    {
        let mouse = &self.ctx.mouse;
        let lmb_pressed = mouse.left_button_state == ElementState::Pressed;
        let rmb_pressed = mouse.right_button_state == ElementState::Pressed;
        if (lmb_pressed || rmb_pressed) && (self.ctx.modifiers.shift || !context::mouse_mode(
            &term.mode,
        )) {
            self.ctx.update_selection(point, mouse.cell_side, term)
        } else if cell_changed && point.line.0 < term.screen_lines && (term.mode.mouse_motion
            || term.mode.mouse_drag) {
            if lmb_pressed {
                self.mouse_report(32, ElementState::Pressed, &term.mode)
            } else if mouse.middle_button_state == ElementState::Pressed {
                self.mouse_report(33, ElementState::Pressed, &term.mode)
            } else if rmb_pressed {
                self.mouse_report(34, ElementState::Pressed, &term.mode)
            } else if term.mode.mouse_motion {
                self.mouse_report(35, ElementState::Pressed, &term.mode)
            } else {
                effect::none()
            }
        } else {
            effect::none()
        }
    }

    /// A selection that is being made scrolls, or stops scrolling.
    fn drag_scroll(&self, motion: &MouseMotion, term: &TermView, host: &HostView) -> (r: Vec<
        Effect,
    >)
        requires
            drags(self.ctx.mouse, *term) ==> scroll_fits(
                motion.y as int,
                motion.min_scroll_height as int,
                motion.scroll_step as int,
                host.size,
            ),
        ensures
            effect::values(r) == drag_scrolling(self.ctx.mouse, *motion, *term, *host),
    {
        let mouse = &self.ctx.mouse;
        let lmb_pressed = mouse.left_button_state == ElementState::Pressed;
        let rmb_pressed = mouse.right_button_state == ElementState::Pressed;
        if !context::selection_is_empty(term) && (lmb_pressed || rmb_pressed) {
            update_selection_scrolling(
                motion.y,
                motion.min_scroll_height,
                motion.scroll_step,
                &host.size,
                host.selection_scroll_scheduled,
            )
        } else {
            effect::none()
        }
    }

    /// Everything that a motion of the mouse sets off.
    pub open spec fn motion_outcome(
        self,
        motion: MouseMotion,
        term: TermView,
        host: HostView,
    ) -> Seq<EffectView> {
        let mouse = self.ctx.mouse;
        let placed = ActionContext {
            mouse: placed_mouse(mouse, motion, host.size),
            ..self.ctx
        };
        let moved = ActionContext { mouse: moved_mouse(mouse, motion, host.size), ..self.ctx };
        drag_scrolling(mouse, motion, term, host) + pointer_effects(
            self.highlighted_url,
            state_of(placed, term, host, motion.url),
        ) + (if stays(mouse, motion, host.size) {
            Seq::empty()
        } else {
            motion_effects(moved, !same_cell(mouse, motion), motion.point, term)
        })
    }

    /// The mouse moved.
    pub fn mouse_moved(&mut self, motion: &MouseMotion, term: &TermView, host: &HostView) -> (r:
        Vec<Effect>)
        requires
            term.wf(),
            host.size.wf(),
            bars_fit(
                placed_mouse(old(self).ctx.mouse, *motion, host.size),
                old(self).ctx.searching(),
                *host,
            ),
            term.mode.sgr_mouse ==> motion.point.line.0 < usize::MAX && motion.point.col.0
                < usize::MAX,
            drags(old(self).ctx.mouse, *term) ==> scroll_fits(
                motion.y as int,
                motion.min_scroll_height as int,
                motion.scroll_step as int,
                host.size,
            ),
        ensures
            *final(self) == old(self).with_mouse(
                moved_mouse(old(self).ctx.mouse, *motion, host.size),
            ),
            effect::values(r) == old(self).motion_outcome(*motion, *term, *host),
    {
        let before = self.ctx.mouse;
        let mut fx = self.drag_scroll(motion, term, host);
        self.ctx.mouse = place_mouse(&before, motion, &host.size);
        // Update mouse state and check for URL change.
        let mouse_state = self.mouse_state(term, host, motion.url);
        effect::extend(&mut fx, self.show_pointer(mouse_state));
        // If the mouse hasn't changed cells, do nothing.
        if mouse_stays(&before, motion, &host.size) {
            assert(effect::values(fx) =~= old(self).motion_outcome(*motion, *term, *host));
            return fx;
        }
        let cell_changed = motion.point.line.0 != before.line.0 || motion.point.col.0
            != before.column.0;
        self.ctx.mouse = move_mouse(&before, motion, &host.size);
        effect::extend(&mut fx, self.drag(cell_changed, motion.point, term));
        assert(effect::values(fx) =~= old(self).motion_outcome(*motion, *term, *host));
        fx
    }
}

/// The click that a press of a button makes, after another button or within the time that a
/// double or a triple click may take.
pub open spec fn next_click(
    mouse: Mouse,
    button: MouseButton,
    now: u64,
    double_click: u64,
    triple_click: u64,
) -> ClickState {
    let elapsed = if now >= mouse.last_click_timestamp {
        now - mouse.last_click_timestamp
    } else {
        0
    };
    if button != mouse.last_click_button {
        ClickState::Click
    } else if mouse.click_state is Click && elapsed < double_click {
        ClickState::DoubleClick
    } else if mouse.click_state is DoubleClick && elapsed < triple_click {
        ClickState::TripleClick
    } else {
        ClickState::Click
    }
}

/// What a click selects.
pub open spec fn click_type(click: ClickState, ctrl: bool) -> Option<SelectionType> {
    match click {
        ClickState::NoClick => None,
        ClickState::Click => if ctrl {
            Some(SelectionType::Block)
        } else {
            Some(SelectionType::Simple)
        },
        ClickState::DoubleClick => Some(SelectionType::Semantic),
        ClickState::TripleClick => Some(SelectionType::Lines),
    }
}

/// In vi mode the cursor follows a click.
pub open spec fn cursor_follows(ctx: ActionContext, point: Point, term: TermView) -> Seq<
    EffectView,
> {
    if term.mode.vi && !ctx.searching() {
        seq![effect::act(Step::SetViCursor(point))]
    } else {
        Seq::empty()
    }
}

/// A left click begins a selection; a single one drops the selection before it.
pub open spec fn left_click(ctx: ActionContext, point: Point, term: TermView) -> Seq<EffectView> {
    let mouse = ctx.mouse;
    let ty = click_type(mouse.click_state, ctx.modifiers.ctrl);
    (if mouse.click_state is Click {
        context::selection_clear()
    } else {
        Seq::empty()
    }) + (if ty is Some {
        context::selection_start(ty->0, point, mouse.cell_side)
    } else {
        Seq::empty()
    }) + cursor_follows(ctx, point, term)
}

/// A right click extends the selection, if there is one.
pub open spec fn right_click(ctx: ActionContext, point: Point, term: TermView) -> Seq<EffectView> {
    let mouse = ctx.mouse;
    let ty = click_type(mouse.click_state, ctx.modifiers.ctrl);
    if ty is Some && term.selection is Some {
        seq![effect::act(Step::SetSelectionType(ty->0))] + context::selection_update(
            term,
            ctx.searching(),
            point,
            mouse.cell_side,
        ) + cursor_follows(ctx, point, term)
    } else {
        Seq::empty()
    }
}

/// The program in the terminal is told of the buttons.
pub open spec fn buttons_reported(ctx: ActionContext, mode: TermMode) -> bool {
    !ctx.modifiers.shift && mode.reports_mouse()
}

/// The report of a button, unless it has no number.
pub open spec fn button_reported(
    ctx: ActionContext,
    mode: TermMode,
    button: MouseButton,
    state: ElementState,
) -> Seq<EffectView> {
    if button.code() is Some {
        reported(ctx, mode, button.code()->0 as int, state)
    } else {
        Seq::empty()
    }
}

/// The mouse after a button was pressed.
pub open spec fn pressed_mouse(
    ctx: ActionContext,
    button: MouseButton,
    now: u64,
    term: TermView,
) -> Mouse {
    let mouse = ctx.mouse;
    let click = next_click(
        mouse,
        button,
        now,
        ctx.config.double_click_threshold,
        ctx.config.triple_click_threshold,
    );
    if buttons_reported(ctx, term.mode) {
        Mouse { click_state: ClickState::NoClick, ..mouse }
    } else {
        Mouse {
            last_click_timestamp: now,
            last_click_button: button,
            click_state: if button is Left || button is Right {
                click
            } else {
                ClickState::NoClick
            },
            block_url_launcher: if button is Left {
                if click is Click {
                    !term.nothing_selected()
                } else {
                    true
                }
            } else {
                mouse.block_url_launcher
            },
            ..mouse
        }
    }
}

/// What a press of a button sets off, for the mouse as it is after the press.
pub open spec fn press_effects(
    ctx: ActionContext,
    button: MouseButton,
    point: Point,
    term: TermView,
) -> Seq<EffectView> {
    if buttons_reported(ctx, term.mode) {
        button_reported(ctx, term.mode, button, ElementState::Pressed)
    } else {
        match button {
            MouseButton::Left => left_click(ctx, term.clamp_line(point), term),
            MouseButton::Right => right_click(ctx, term.clamp_line(point), term),
            _ => Seq::empty(),
        }
    }
}

/// The selection is copied, to one clipboard or to both.
pub open spec fn copies(save_to_clipboard: bool) -> Seq<EffectView> {
    if save_to_clipboard {
        seq![
            effect::act(Step::CopySelection(ClipboardType::Clipboard)),
            effect::act(Step::CopySelection(ClipboardType::Selection)),
        ]
    } else {
        seq![effect::act(Step::CopySelection(ClipboardType::Selection))]
    }
}

/// What the release of a button sets off.
pub open spec fn release_effects(
    ctx: ActionContext,
    button: MouseButton,
    term: TermView,
    state: MouseState,
) -> Seq<EffectView> {
    if buttons_reported(ctx, term.mode) {
        button_reported(ctx, term.mode, button, ElementState::Released)
    } else {
        (if button is Left && state is Url {
            seq![effect::act(Step::LaunchUrl(state->Url_0))]
        } else {
            Seq::empty()
        }).push(effect::act(Step::Unschedule(TimerId::SelectionScrolling))) + copies(
            ctx.config.save_to_clipboard,
        )
    }
}

fn click_selection(click: ClickState, ctrl: bool) -> (r: Option<SelectionType>)
    ensures
        r == click_type(click, ctrl),
{
    match click {
        ClickState::NoClick => None,
        ClickState::Click => if ctrl {
            Some(SelectionType::Block)
        } else {
            Some(SelectionType::Simple)
        },
        ClickState::DoubleClick => Some(SelectionType::Semantic),
        ClickState::TripleClick => Some(SelectionType::Lines),
    }
}

/// Update multi-click state.
fn count_click(
    mouse: &Mouse,
    button: MouseButton,
    now: u64,
    double_click: u64,
    triple_click: u64,
) -> (r: Mouse)
    ensures
        r == (Mouse {
            last_click_timestamp: now,
            last_click_button: button,
            click_state: next_click(*mouse, button, now, double_click, triple_click),
            ..*mouse
        }),
{
    // Calculate time since the last click to handle double/triple clicks.
    let last: u64 = mouse.last_click_timestamp;
    let elapsed: u64 = if now >= last {
        now - last
    } else {
        0
    };
    // Reset click state if button has changed.
    let click_state = if button != mouse.last_click_button {
        ClickState::Click
    } else {
        match mouse.click_state {
            ClickState::Click if elapsed < double_click => ClickState::DoubleClick,
            ClickState::DoubleClick if elapsed < triple_click => ClickState::TripleClick,
            _ => ClickState::Click,
        }
    };
    Mouse { last_click_timestamp: now, last_click_button: button, click_state, ..*mouse }
}

impl Processor {
    /// A button was pressed.
    pub fn on_mouse_press(&mut self, button: MouseButton, now: u64, point: Point, term: &TermView)
        -> (r: Vec<Effect>)
        requires
            term.wf(),
            can_report(old(self).ctx.mouse, term.mode),
        ensures
            *final(self) == old(self).with_mouse(
                pressed_mouse(old(self).ctx, button, now, *term),
            ),
            effect::values(r) == press_effects(final(self).ctx, button, point, *term),
    {
        // Handle mouse mode.
        if !self.ctx.modifiers.shift && context::mouse_mode(&term.mode) {
            self.ctx.mouse.click_state = ClickState::NoClick;
            return match report::button_code(&button) {
                Some(code) => self.mouse_report(code, ElementState::Pressed, &term.mode),
                None => effect::none(),
            };
        }
        let counted = count_click(
            &self.ctx.mouse,
            button,
            now,
            self.ctx.config.double_click_threshold,
            self.ctx.config.triple_click_threshold,
        );
        self.ctx.mouse = counted;
        // Treat message bar and padding as the closest cell.
        let point = term.clamped_to_lines(point);
        match button {
            MouseButton::Left => self.on_left_click(point, term),
            MouseButton::Right => self.on_right_click(point, term),
            // Do nothing when using buttons other than LMB.
            _ => {
                self.ctx.mouse.click_state = ClickState::NoClick;
                effect::none()
            },
        }
    }

    /// Handle selection expansion on right click.
    fn on_right_click(&self, point: Point, term: &TermView) -> (r: Vec<Effect>)
        requires
            term.wf(),
        ensures
            effect::values(r) == right_click(self.ctx, point, *term),
    {
        match click_selection(self.ctx.mouse.click_state, self.ctx.modifiers.ctrl) {
            Some(ty) => self.expand_selection(point, ty, term),
            None => effect::none(),
        }
    }

    /// Expand existing selection.
    fn expand_selection(&self, point: Point, selection_type: SelectionType, term: &TermView) -> (r:
        Vec<Effect>)
        requires
            term.wf(),
        ensures
            effect::values(r) == if term.selection is Some {
                seq![effect::act(Step::SetSelectionType(selection_type))]
                    + context::selection_update(
                    *term,
                    self.ctx.searching(),
                    point,
                    self.ctx.mouse.cell_side,
                ) + cursor_follows(self.ctx, point, *term)
            } else {
                Seq::empty()
            },
    {
        let mut fx = effect::none();
        if term.selection.is_none() {
            return fx;
        }
        effect::step(&mut fx, Step::SetSelectionType(selection_type));
        effect::extend(&mut fx, self.ctx.update_selection(point, self.ctx.mouse.cell_side, term));
        self.move_cursor(&mut fx, point, term);
        fx
    }

    /// Move vi mode cursor to mouse click position.
    fn move_cursor(&self, fx: &mut Vec<Effect>, point: Point, term: &TermView)
        ensures
            effect::values(*final(fx)) == effect::values(*old(fx)) + cursor_follows(
                self.ctx,
                point,
                *term,
            ),
    {
        if term.mode.vi && !self.ctx.search_active() {
            effect::step(fx, Step::SetViCursor(point));
        }
        assert(effect::values(*fx) =~= effect::values(*old(fx)) + cursor_follows(
            self.ctx,
            point,
            *term,
        ));
    }

    /// Handle left click selection and vi mode cursor movement.
    fn on_left_click(&mut self, point: Point, term: &TermView) -> (r: Vec<Effect>)
        ensures
            *final(self) == old(self).with_mouse(
                Mouse {
                    block_url_launcher: match old(self).ctx.mouse.click_state {
                        ClickState::Click => !term.nothing_selected(),
                        ClickState::NoClick => old(self).ctx.mouse.block_url_launcher,
                        _ => true,
                    },
                    ..old(self).ctx.mouse
                },
            ),
            effect::values(r) == left_click(old(self).ctx, point, *term),
    {
        let side = self.ctx.mouse.cell_side;
        let click = self.ctx.mouse.click_state;
        let mut fx = effect::none();
        match click {
            ClickState::Click => {
                // Don't launch URLs if this click cleared the selection.
                self.ctx.mouse.block_url_launcher = !context::selection_is_empty(term);
                fx = context::clear_selection();
            },
            ClickState::NoClick => {},
            _ => {
                self.ctx.mouse.block_url_launcher = true;
            },
        }
        if let Some(ty) = click_selection(click, self.ctx.modifiers.ctrl) {
            effect::extend(&mut fx, context::start_selection(ty, point, side));
        }
        self.move_cursor(&mut fx, point, term);
        assert(effect::values(fx) =~= left_click(old(self).ctx, point, *term));
        fx
    }

    /// A button was released.
    pub fn on_mouse_release(
        &self,
        button: MouseButton,
        term: &TermView,
        host: &HostView,
        url: Option<Url>,
    ) -> (r: Vec<Effect>)
        requires
            can_report(self.ctx.mouse, term.mode),
            bars_fit(self.ctx.mouse, self.ctx.searching(), *host),
        ensures
            effect::values(r) == release_effects(
                self.ctx,
                button,
                *term,
                state_of(self.ctx, *term, *host, url),
            ),
    {
        if !self.ctx.modifiers.shift && context::mouse_mode(&term.mode) {
            return match report::button_code(&button) {
                Some(code) => self.mouse_report(code, ElementState::Released, &term.mode),
                None => effect::none(),
            };
        }
        let mut fx = effect::none();
        if let MouseButton::Left = button {
            if let MouseState::Url(url) = self.mouse_state(term, host, url) {
                effect::step(&mut fx, Step::LaunchUrl(url));
            }
        }
        effect::step(&mut fx, Step::Unschedule(TimerId::SelectionScrolling));
        effect::extend(&mut fx, self.copy_selection());
        fx
    }

    /// Copy text selection.
    fn copy_selection(&self) -> (r: Vec<Effect>)
        ensures
            effect::values(r) == copies(self.ctx.config.save_to_clipboard),
    {
        let mut fx = effect::none();
        if self.ctx.config.save_to_clipboard {
            effect::step(&mut fx, Step::CopySelection(ClipboardType::Clipboard));
        }
        effect::step(&mut fx, Step::CopySelection(ClipboardType::Selection));
        fx
    }
}

/// Clicks in quick succession count up to three and then start again.
pub proof fn law_clicks_count_to_three(
    mouse: Mouse,
    button: MouseButton,
    now: u64,
    double_click: u64,
    triple_click: u64,
)
    requires
        mouse.last_click_button == button,
        mouse.last_click_timestamp <= now,
        now - mouse.last_click_timestamp < double_click,
        now - mouse.last_click_timestamp < triple_click,
    ensures
        next_click(mouse, button, now, double_click, triple_click) == match mouse.click_state {
            ClickState::NoClick => ClickState::Click,
            ClickState::Click => ClickState::DoubleClick,
            ClickState::DoubleClick => ClickState::TripleClick,
            ClickState::TripleClick => ClickState::Click,
        },
{
}

/// Once the mouse has moved on, or a click has dropped a selection, no address is opened.
pub proof fn law_moves_and_dropped_selections_block_addresses(
    ctx: ActionContext,
    motion: MouseMotion,
    size: SizeInfo,
    now: u64,
    term: TermView,
)
    ensures
        !stays(ctx.mouse, motion, size) ==> moved_mouse(ctx.mouse, motion, size).block_url_launcher,
        !buttons_reported(ctx, term.mode) && !term.nothing_selected() ==> pressed_mouse(
            ctx,
            MouseButton::Left,
            now,
            term,
        ).block_url_launcher,
{
}

/// With Shift held, a button is never reported: it always belongs to the terminal.
pub proof fn law_shift_keeps_buttons_from_programs(
    ctx: ActionContext,
    button: MouseButton,
    point: Point,
    term: TermView,
    state: MouseState,
)
    requires
        ctx.modifiers.shift,
    ensures
        forall|i: int|
            0 <= i < press_effects(ctx, button, point, term).len() ==> !(#[trigger] press_effects(
                ctx,
                button,
                point,
                term,
            )[i] is WriteToPty),
        forall|i: int|
            0 <= i < release_effects(ctx, button, term, state).len() ==> !(
            #[trigger] release_effects(ctx, button, term, state)[i] is WriteToPty),
{
}

} // verus!
