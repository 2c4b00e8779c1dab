//! Process window events.
use crate::config::Config;
use crate::context::{ActionContext, Mouse};
use crate::effect::EffectView;
use crate::input;
use crate::search::SearchState;
use crate::term::{
    ClipboardType, ElementState, HostView, KeyboardInput, ModifiersState, MouseButton, Platform,
    Scroll, TermView, TouchPhase,
};
use crate::wheel::WheelDelta;
use crate::word::Url;
use vstd::prelude::*;

verus! {

/// What a terminal asks of the window that shows it.
#[derive(Debug)]
pub enum TerminalEvent {
    Title(String),
    ResetTitle,
    Wakeup,
    /// The child process of the tab at this index has ended.
    Close(usize),
    Bell,
    ClipboardStore(ClipboardType, String),
    /// The program asks for a clipboard, in a form that the host keeps under this number.
    ClipboardLoad(ClipboardType, u64),
    MouseCursorDirty,
    Exit,
    CursorBlinkingChange(bool),
}

/// Events dispatched through the UI event loop.
#[derive(Debug)]
pub enum Event {
    TerminalEvent(TerminalEvent),
    /// The window has another scale, by its bit pattern, and another width and height.
    DPRChanged(u64, (u32, u32)),
    Scroll(Scroll),
    /// The settings in a file have changed.
    ConfigReload(String),
    /// A message that the host keeps under this number.
    Message(u64),
    BlinkCursor,
    SearchNext,
    TestEvent,
}

/// What happened to a window.
#[derive(Debug)]
pub enum WindowEvent {
    CloseRequested,
    Resized(u32, u32),
    KeyboardInput { input: KeyboardInput, is_synthetic: bool },
    ReceivedCharacter(char),
    MouseInput { state: ElementState, button: MouseButton },
    ModifiersChanged(ModifiersState),
    CursorMoved { x: i32, y: i32 },
    /// The wheel was turned by a distance, given by its bit pattern.
    MouseWheel { delta: WheelDelta, phase: TouchPhase, distance: u64 },
    /// The window with the terminal, or another one, received or lost the focus.
    Focused { is_focused: bool, own_window: bool },
    DroppedFile(String),
    CursorLeft,
    ScaleFactorChanged { scale_factor: u64, width: u32, height: u32 },
    TouchpadPressure,
    CursorEntered,
    AxisMotion,
    HoveredFileCancelled,
    Destroyed,
    ThemeChanged,
    HoveredFile,
    Touch,
    Moved,
}

/// What the event loop of the host delivers.
#[derive(Debug)]
pub enum HostEvent {
    UserEvent(Event),
    WindowEvent(WindowEvent),
    RedrawRequested,
    Suspended,
    NewEvents,
    DeviceEvent,
    MainEventsCleared,
    RedrawEventsCleared,
    Resumed,
    LoopDestroyed,
}

impl From<Event> for HostEvent {
    fn from(event: Event) -> (r: HostEvent) {
        HostEvent::UserEvent(event)
    }
}

impl vstd::std_specs::convert::FromSpecImpl<Event> for HostEvent {
    open spec fn obeys_from_spec() -> bool {
        true
    }

    open spec fn from_spec(event: Event) -> HostEvent {
        HostEvent::UserEvent(event)
    }
}

impl From<TerminalEvent> for Event {
    fn from(event: TerminalEvent) -> (r: Event) {
        Event::TerminalEvent(event)
    }
}

impl vstd::std_specs::convert::FromSpecImpl<TerminalEvent> for Event {
    open spec fn obeys_from_spec() -> bool {
        true
    }

    open spec fn from_spec(event: TerminalEvent) -> Event {
        Event::TerminalEvent(event)
    }
}

/// What the host does after it has delivered an event.
#[derive(Clone, Copy, PartialEq, Eq, Structural, Debug)]
pub enum Turn {
    /// Nothing.
    Skip,
    /// Leave the event loop.
    Exit,
    /// Deliver the next event without waiting.
    Poll,
    /// Call `Processor::update_timers`.
    UpdateTimers,
    /// Process the queue.
    Process,
}

/// How the event loop waits for its next event.
#[derive(Clone, Copy, PartialEq, Eq, Structural, Debug)]
pub enum ControlFlow {
    Wait,
    /// Wait up to a moment, in nanoseconds.
    WaitUntil(u64),
}

/// What is left to do once the queue is processed.
#[derive(Clone, Copy, PartialEq, Eq, Structural, Debug)]
pub struct Finish {
    /// Lay the display out again, as `submit_display_update` says.
    pub update_display: bool,
    /// Draw the display.
    pub draw: bool,
    /// Deliver the next event without waiting.
    pub poll: bool,
}

/// Settings that only the host can compare.
#[derive(Clone, Copy, Debug)]
pub struct ConfigChanges {
    pub cursor_thickness: bool,
    pub font: bool,
    pub padding: bool,
}

/// The event concerns neither the terminal nor its display.
pub open spec fn irrelevant(event: HostEvent) -> bool {
    match event {
        HostEvent::WindowEvent(event) => match event {
            WindowEvent::KeyboardInput { is_synthetic, .. } => is_synthetic,
            WindowEvent::TouchpadPressure
            | WindowEvent::CursorEntered
            | WindowEvent::AxisMotion
            | WindowEvent::HoveredFileCancelled
            | WindowEvent::Destroyed
            | WindowEvent::HoveredFile
            | WindowEvent::Touch
            | WindowEvent::Moved => true,
            _ => false,
        },
        HostEvent::Suspended
        | HostEvent::NewEvents
        | HostEvent::MainEventsCleared
        | HostEvent::LoopDestroyed => true,
        _ => false,
    }
}

/// Check if an event is irrelevant and can be skipped.
pub fn skip_event(event: &HostEvent) -> (r: bool)
    ensures
        r == irrelevant(*event),
{
    match event {
        HostEvent::WindowEvent(event) => match event {
            WindowEvent::KeyboardInput { is_synthetic, .. } => *is_synthetic,
            WindowEvent::TouchpadPressure
            | WindowEvent::CursorEntered
            | WindowEvent::AxisMotion
            | WindowEvent::HoveredFileCancelled
            | WindowEvent::Destroyed
            | WindowEvent::HoveredFile
            | WindowEvent::Touch
            | WindowEvent::Moved => true,
            _ => false,
        },
        HostEvent::Suspended
        | HostEvent::NewEvents
        | HostEvent::MainEventsCleared
        | HostEvent::LoopDestroyed => true,
        _ => false,
    }
}

/// What the host does after it has delivered an event.
pub open spec fn turn(event: HostEvent) -> Turn {
    if irrelevant(event) {
        Turn::Skip
    } else {
        match event {
            HostEvent::UserEvent(Event::TerminalEvent(TerminalEvent::Exit)) => Turn::Exit,
            HostEvent::UserEvent(Event::TestEvent) => Turn::Process,
            HostEvent::RedrawEventsCleared => Turn::UpdateTimers,
            _ => Turn::Poll,
        }
    }
}

/// The event as it waits in the queue.
pub open spec fn remapped(event: HostEvent) -> HostEvent {
    match event {
        HostEvent::WindowEvent(
            WindowEvent::ScaleFactorChanged { scale_factor, width, height },
        ) => HostEvent::UserEvent(Event::DPRChanged(scale_factor, (width, height))),
        _ => event,
    }
}

/// The event processor.
///
/// Stores some state from received events and dispatches actions when they are triggered.
#[derive(Debug)]
pub struct Processor {
    pub input: input::Processor,
    pub event_queue: Vec<HostEvent>,
}

impl Processor {
    /// Create a new event processor.
    pub fn new(config: Config, now: u64) -> (r: Processor)
        ensures
            r.event_queue@ == Seq::<HostEvent>::empty(),
            r.input.highlighted_url is None,
            r.input.ctx.search_state@ == crate::search::SearchView::initial(),
            r.input.ctx.mouse == Mouse::initial(now),
            r.input.ctx.modifiers == (ModifiersState {
                shift: false,
                ctrl: false,
                alt: false,
                logo: false,
            }),
            r.input.ctx.received_count == 0,
            !r.input.ctx.suppress_chars,
            !r.input.ctx.cursor_hidden,
            !r.input.ctx.display_update_pending,
            r.input.ctx.font_size == config.font_size,
            r.input.ctx.config == config,
    {
        let ctx = ActionContext {
            search_state: SearchState::new(),
            mouse: Mouse::new(now),
            modifiers: ModifiersState::empty(),
            received_count: 0,
            suppress_chars: false,
            cursor_hidden: false,
            display_update_pending: false,
            font_size: config.font_size,
            config,
        };
        Processor { input: input::Processor::new(ctx, None), event_queue: Vec::new() }
    }

    /// Start the initial cursor blinking timer.
    pub fn start(&mut self, style_blinks: bool)
        ensures
            final(self).input == old(self).input,
            final(self).event_queue@ == if style_blinks {
                old(self).event_queue@.push(
                    HostEvent::UserEvent(
                        Event::TerminalEvent(TerminalEvent::CursorBlinkingChange(true)),
                    ),
                )
            } else {
                old(self).event_queue@
            },
    {
        if style_blinks {
            let event = Event::from(TerminalEvent::CursorBlinkingChange(true));
            self.event_queue.push(HostEvent::from(event));
        }
    }

    /// Take in an event of the event loop.
    pub fn run(&mut self, event: HostEvent) -> (r: Turn)
        ensures
            r == turn(event),
            final(self).input == old(self).input,
            final(self).event_queue@ == if turn(event) is Poll {
                old(self).event_queue@.push(remapped(event))
            } else {
                old(self).event_queue@
            },
    {
        // Ignore all events we do not care about.
        if skip_event(&event) {
            return Turn::Skip;
        }
        match event {
            // Check for shutdown.
            HostEvent::UserEvent(Event::TerminalEvent(TerminalEvent::Exit)) => Turn::Exit,
            HostEvent::UserEvent(Event::TestEvent) => Turn::Process,
            // Process events.
            HostEvent::RedrawEventsCleared => Turn::UpdateTimers,
            // Remap DPR change event.
            HostEvent::WindowEvent(
                WindowEvent::ScaleFactorChanged { scale_factor, width, height },
            ) => {
                self.event_queue.push(
                    HostEvent::from(Event::DPRChanged(scale_factor, (width, height))),
                );
                Turn::Poll
            },
            event => {
                self.event_queue.push(event);
                Turn::Poll
            },
        }
    }

    /// Return `true` if `event_queue` is empty, `false` otherwise.
    pub fn event_queue_empty(&self) -> (r: bool)
        ensures
            r == (self.event_queue@.len() == 0),
    {
        self.event_queue.len() == 0
    }

    /// Take in the events of the timers that are due, and the moment when the next one will be.
    /// The queue is processed where the second result says so: where events wait in it, or frame
    /// events of a Wayland compositor were dispatched.
    pub fn update_timers(
        &mut self,
        mut due: Vec<HostEvent>,
        deadline: Option<u64>,
        frame_events: usize,
    ) -> (r: (ControlFlow, bool))
        ensures
            final(self).input == old(self).input,
            final(self).event_queue@ == old(self).event_queue@ + due@,
            r.0 == match deadline {
                Some(instant) => ControlFlow::WaitUntil(instant),
                None => ControlFlow::Wait,
            },
            r.1 == (old(self).event_queue@.len() + due@.len() > 0 || frame_events > 0),
    {
        self.event_queue.append(&mut due);
        let control_flow = match deadline {
            Some(instant) => ControlFlow::WaitUntil(instant),
            None => ControlFlow::Wait,
        };
        (control_flow, !self.event_queue_empty() || frame_events > 0)
    }

    /// Empty the queue, to handle its events one by one. The second result tells whether a search
    /// was active before.
    pub fn take_events(&mut self, highlighted_url: Option<Url>) -> (r: (Vec<HostEvent>, bool))
        ensures
            r.0@ == old(self).event_queue@,
            r.1 == old(self).input.ctx.searching(),
            final(self).event_queue@ == Seq::<HostEvent>::empty(),
            final(self).input == (input::Processor {
                ctx: ActionContext { display_update_pending: false, ..old(self).input.ctx },
                highlighted_url,
            }),
    {
        let old_is_searching = self.input.ctx.search_active();
        self.input.ctx.display_update_pending = false;
        self.input.highlighted_url = highlighted_url;
        let mut events: Vec<HostEvent> = Vec::new();
        events.append(&mut self.event_queue);
        assert(events@ =~= old(self).event_queue@);
        (events, old_is_searching)
    }

    /// What is left to do once the queue is processed. Nothing is drawn on Wayland until the
    /// compositor asks for a frame; while the bell is shown, it is drawn again at once.
    pub fn finish(
        &mut self,
        display_changed: bool,
        platform: Platform,
        should_draw: bool,
        dirty: bool,
        bell_completed: bool,
    ) -> (r: Finish)
        ensures
            r.update_display == (display_changed || old(self).input.ctx.display_update_pending),
            r.draw == (dirty && (platform !is Wayland || should_draw)),
            r.poll == (r.draw && !bell_completed),
            final(self).input == old(self).input,
            final(self).event_queue@ == if r.poll {
                old(self).event_queue@.push(
                    HostEvent::UserEvent(Event::TerminalEvent(TerminalEvent::Wakeup)),
                )
            } else {
                old(self).event_queue@
            },
    {
        let update_display = display_changed || self.input.ctx.display_update_pending;
        // Skip rendering on Wayland until we get frame event from compositor.
        let draw = dirty && (platform != Platform::Wayland || should_draw);
        // Request immediate re-draw if visual bell animation is not finished yet.
        let poll = draw && !bell_completed;
        if poll {
            self.event_queue.push(HostEvent::from(Event::from(TerminalEvent::Wakeup)));
        }
        Finish { update_display, draw, poll }
    }
}

/// Skipping an irrelevant event and handling it come to the same: it is never queued, and where
/// it is handled nothing happens.
pub proof fn law_irrelevant_events_do_nothing(
    event: HostEvent,
    processor: input::Processor,
    term: TermView,
    host: HostView,
)
    requires
        irrelevant(event),
    ensures
        turn(event) is Skip,
        crate::handler::event_effects(event, processor, term, host) == Seq::<EffectView>::empty(),
        crate::handler::processor_after(event, processor, term, host) == processor,
{
}

} // verus!
