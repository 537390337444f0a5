//! The frame loop: what each event does to the harness, and what the
//! embedding program has to do in turn.

use vstd::prelude::*;
use crate::error::ErrorKind;
use crate::event::{LoopEvent, ScaleFactor};
use crate::render::commands::{
    frame_commands,
    lemma_frame_draws_triangle_then_overlay,
    one_triangle_then_overlay,
    CommandEncoder,
    CommandSequence,
    CommandSequenceView,
};
use crate::render::renderer::{
    surface_descriptor,
    surface_format,
    GpuProbe,
    Renderer,
    SwapChain,
    SwapChainDescriptor,
    TextureFormat,
};
use crate::ui::debug_ui::DebugUi;

verus! {

/// The states of the loop.
#[derive(Clone, Copy, Debug, PartialEq, Eq, Structural)]
pub enum LoopState {
    /// Waiting for the next event.
    Idle,
    /// A new scale factor is being recorded.
    ScaleChanged,
    /// The graphics context is being resized.
    Resized,
    /// The event concerns the overlay alone and is on its way to it.
    InputPending,
    /// A redraw has been asked for and has not come yet.
    ReadyToRedraw,
    /// A frame is in the making: its texture has been asked for.
    Rendering,
    /// The loop has ended. Nothing is done any more.
    Exiting,
}

/// What the event loop of the window system is to do next.
#[derive(Clone, Copy, Debug, PartialEq, Eq, Structural)]
pub enum ControlFlow {
    /// Go on at once, without waiting for an event.
    Poll,
    Exit,
}

/// The work that an event leaves to the embedding program.
#[derive(Debug, PartialEq, Eq)]
pub enum LoopAction {
    Nothing,
    /// Build the swap chain that `desc` describes and drop the old one.
    RebuildSwapChain { desc: SwapChainDescriptor },
    /// Let the overlay's toolkit take the time of this wake-up.
    AdvanceOverlayClock,
    /// Synchronise the overlay with the window, then request a redraw.
    PrepareFrame,
    /// Ask the swap chain for the next frame and report with
    /// `LoopEvent::FrameAcquired` how it went.
    AcquireFrame,
    /// Record the commands on the frame just acquired and submit them.
    Submit { sequence: CommandSequence },
    /// Stop the process with this failure.
    Abort { kind: ErrorKind },
}

/// A `LoopAction` as the contracts see it.
pub enum LoopActionView {
    Nothing,
    RebuildSwapChain { desc: SwapChainDescriptor },
    AdvanceOverlayClock,
    PrepareFrame,
    AcquireFrame,
    Submit { sequence: CommandSequenceView },
    Abort { kind: ErrorKind },
}

/// What handling one event comes to.
#[derive(Debug, PartialEq, Eq)]
pub struct Tick {
    /// The state the event put the loop in while it was handled.
    pub entered: LoopState,
    pub control_flow: ControlFlow,
    pub action: LoopAction,
    /// Whether the event is to be handed on to the overlay as input.
    pub forward_to_overlay: bool,
}

/// A `Tick` as the contracts see it.
pub struct TickView {
    pub entered: LoopState,
    pub control_flow: ControlFlow,
    pub action: LoopActionView,
    pub forward_to_overlay: bool,
}

/// The harness: the graphics context, the overlay, and the loop's own state.
#[derive(Debug, PartialEq, Eq, Structural)]
pub struct App {
    pub renderer: Renderer,
    pub debug_ui: DebugUi,
    /// The scale factor the window system reported last.
    pub hidpi_factor: ScaleFactor,
    pub state: LoopState,
}

impl View for LoopAction {
    type V = LoopActionView;

    open spec fn view(&self) -> LoopActionView {
        match *self {
            LoopAction::Nothing => LoopActionView::Nothing,
            LoopAction::RebuildSwapChain { desc } => LoopActionView::RebuildSwapChain { desc },
            LoopAction::AdvanceOverlayClock => LoopActionView::AdvanceOverlayClock,
            LoopAction::PrepareFrame => LoopActionView::PrepareFrame,
            LoopAction::AcquireFrame => LoopActionView::AcquireFrame,
            LoopAction::Submit { sequence } => LoopActionView::Submit { sequence: sequence@ },
            LoopAction::Abort { kind } => LoopActionView::Abort { kind },
        }
    }
}

impl View for Tick {
    type V = TickView;

    open spec fn view(&self) -> TickView {
        TickView {
            entered: self.entered,
            control_flow: self.control_flow,
            action: self.action@,
            forward_to_overlay: self.forward_to_overlay,
        }
    }
}

impl LoopState {
    /// The state in which the loop handles `event`.
    pub open spec fn entered_on(self, event: LoopEvent) -> LoopState {
        if self is Exiting || event.exit_requested() {
            LoopState::Exiting
        } else {
            match event {
                LoopEvent::Failed { .. } => LoopState::Exiting,
                LoopEvent::NewEvents { .. } => LoopState::Idle,
                LoopEvent::ScaleFactorChanged { .. } => LoopState::ScaleChanged,
                LoopEvent::Resized { .. } => LoopState::Resized,
                LoopEvent::MainEventsCleared => LoopState::ReadyToRedraw,
                LoopEvent::RedrawRequested => LoopState::Rendering,
                LoopEvent::FrameAcquired { ready } => if self is Rendering && !ready {
                    LoopState::Exiting
                } else {
                    self
                },
                _ => LoopState::InputPending,
            }
        }
    }

    /// The state in which the loop waits for the event after `event`.
    pub open spec fn next_on(self, event: LoopEvent) -> LoopState {
        match self.entered_on(event) {
            LoopState::ScaleChanged | LoopState::Resized | LoopState::InputPending => LoopState::Idle,
            LoopState::Rendering => if event is FrameAcquired {
                LoopState::Idle
            } else {
                LoopState::Rendering
            },
            state => state,
        }
    }

    pub fn entered(self, event: &LoopEvent) -> (state: LoopState)
        ensures
            state == self.entered_on(*event),
    {
        if let LoopState::Exiting = self {
            return LoopState::Exiting;
        }
        if event.is_exit_request() {
            return LoopState::Exiting;
        }
        match event {
            LoopEvent::Failed { .. } => LoopState::Exiting,
            LoopEvent::NewEvents { .. } => LoopState::Idle,
            LoopEvent::ScaleFactorChanged { .. } => LoopState::ScaleChanged,
            LoopEvent::Resized { .. } => LoopState::Resized,
            LoopEvent::MainEventsCleared => LoopState::ReadyToRedraw,
            LoopEvent::RedrawRequested => LoopState::Rendering,
            LoopEvent::FrameAcquired { ready } => {
                match self {
                    LoopState::Rendering => if *ready {
                        LoopState::Rendering
                    } else {
                        LoopState::Exiting
                    },
                    _ => self,
                }
            },
            _ => LoopState::InputPending,
        }
    }

    pub fn next(self, event: &LoopEvent) -> (state: LoopState)
        ensures
            state == self.next_on(*event),
    {
        match self.entered(event) {
            LoopState::ScaleChanged => LoopState::Idle,
            LoopState::Resized => LoopState::Idle,
            LoopState::InputPending => LoopState::Idle,
            LoopState::Rendering => {
                match event {
                    LoopEvent::FrameAcquired { .. } => LoopState::Idle,
                    _ => LoopState::Rendering,
                }
            },
            state => state,
        }
    }
}

impl App {
    /// The swap chain matches the window, and the overlay draws into the
    /// format of the swap chain.
    pub open spec fn wf(&self) -> bool {
        &&& self.renderer.wf()
        &&& self.debug_ui.color_format == surface_format()
    }

    /// The harness at start-up.
    pub open spec fn started(width: u32, height: u32, now: u128) -> App {
        App {
            renderer: Renderer {
                swap_chain: SwapChain { desc: surface_descriptor(width, height), generation: 0 },
                width,
                height,
                hidpi_factor: ScaleFactor::unit(),
            },
            debug_ui: DebugUi {
                color_format: surface_format(),
                last_frame: now,
                delta_s: 0,
                demo_open: false,
            },
            hidpi_factor: ScaleFactor::unit(),
            state: LoopState::Idle,
        }
    }

    /// The commands of the frame that the harness would render now.
    pub open spec fn frame(&self) -> CommandSequenceView {
        CommandSequenceView {
            commands: frame_commands(
                self.renderer.swap_chain.generation,
                self.debug_ui.delta_s,
                self.debug_ui.demo_open,
            ),
            target: self.renderer.current_target(),
        }
    }

    /// The harness after `event`.
    pub open spec fn after(self, event: LoopEvent) -> App {
        if self.state is Exiting {
            self
        } else {
            App {
                renderer: match event {
                    LoopEvent::Resized { width, height } => self.renderer.resized(
                        width,
                        height,
                        self.hidpi_factor,
                    ),
                    _ => self.renderer,
                },
                debug_ui: match event {
                    LoopEvent::NewEvents { now } => self.debug_ui.woken(now),
                    _ => self.debug_ui,
                },
                hidpi_factor: match event {
                    LoopEvent::ScaleFactorChanged { scale_factor } => scale_factor,
                    _ => self.hidpi_factor,
                },
                state: self.state.next_on(event),
            }
        }
    }

    /// The work that `event` leaves to the embedding program.
    pub open spec fn action_on(self, event: LoopEvent) -> LoopActionView {
        if self.state is Exiting || event.exit_requested() {
            LoopActionView::Nothing
        } else {
            match event {
                LoopEvent::Failed { kind } => LoopActionView::Abort { kind },
                LoopEvent::NewEvents { .. } => LoopActionView::AdvanceOverlayClock,
                LoopEvent::Resized { width, height } => if width != self.renderer.width || height
                    != self.renderer.height {
                    LoopActionView::RebuildSwapChain { desc: surface_descriptor(width, height) }
                } else {
                    LoopActionView::Nothing
                },
                LoopEvent::MainEventsCleared => LoopActionView::PrepareFrame,
                LoopEvent::RedrawRequested => LoopActionView::AcquireFrame,
                LoopEvent::FrameAcquired { ready } => if !(self.state is Rendering) {
                    LoopActionView::Nothing
                } else if ready {
                    LoopActionView::Submit { sequence: self.frame() }
                } else {
                    LoopActionView::Abort { kind: ErrorKind::FrameAcquisitionTimeout }
                },
                _ => LoopActionView::Nothing,
            }
        }
    }

    /// What handling `event` comes to.
    pub open spec fn tick_on(self, event: LoopEvent) -> TickView {
        TickView {
            entered: self.state.entered_on(event),
            control_flow: if self.state.next_on(event) is Exiting {
                ControlFlow::Exit
            } else {
                ControlFlow::Poll
            },
            action: self.action_on(event),
            forward_to_overlay: !(self.state is Exiting) && event.from_window(),
        }
    }

    /// The harness after all of `events`, in order.
    pub open spec fn after_all(self, events: Seq<LoopEvent>) -> App
        decreases events.len(),
    {
        if events.len() == 0 {
            self
        } else {
            self.after_all(events.drop_last()).after(events.last())
        }
    }

    /// Sets the harness up for a window whose inner size is `width` by
    /// `height` physical pixels, at the clock reading `now`, once the GPU
    /// has been asked for an adapter and a device.
    pub fn new(probe: GpuProbe, width: u32, height: u32, now: u128) -> (res: Result<App, ErrorKind>)
        ensures
            probe == GpuProbe::NoAdapter ==> res == Err::<App, ErrorKind>(ErrorKind::NoAdapter),
            probe == GpuProbe::NoDevice ==> res == Err::<App, ErrorKind>(ErrorKind::DeviceRequest),
            probe == GpuProbe::Ready ==> res == Ok::<App, ErrorKind>(
                App::started(width, height, now),
            ),
            res matches Ok(app) ==> app.wf(),
    {
        let renderer = match Renderer::new(probe, width, height) {
            Ok(renderer) => renderer,
            Err(kind) => {
                return Err(kind);
            },
        };
        let debug_ui = DebugUi::new(TextureFormat::Bgra8UnormSrgb, now);
        Ok(App { renderer, debug_ui, hidpi_factor: ScaleFactor::one(), state: LoopState::Idle })
    }

    /// Builds the one command sequence of a frame, or gives the frame up:
    /// the triangle pass first, the overlay after it.
    fn render(&mut self, ready: bool) -> (action: LoopAction)
        ensures
            *final(self) == *old(self),
            ready ==> action@ == (LoopActionView::Submit { sequence: old(self).frame() }),
            !ready ==> action@ == (LoopActionView::Abort {
                kind: ErrorKind::FrameAcquisitionTimeout,
            }),
    {
        match self.renderer.acquire_frame(ready) {
            Ok(frame) => {
                let mut encoder = CommandEncoder::new();
                encoder.triangle_pass(&frame);
                self.debug_ui.draw(&mut encoder, &frame);
                let sequence = encoder.finish(frame);
                assert(sequence@.commands =~= self.frame().commands);
                LoopAction::Submit { sequence }
            },
            Err(kind) => LoopAction::Abort { kind },
        }
    }

    /// Handles one event.
    pub fn handle(&mut self, event: LoopEvent) -> (tick: Tick)
        ensures
            *final(self) == old(self).after(event),
            tick@ == old(self).tick_on(event),
            old(self).wf() ==> final(self).wf(),
    {
        if let LoopState::Exiting = self.state {
            return Tick {
                entered: LoopState::Exiting,
                control_flow: ControlFlow::Exit,
                action: LoopAction::Nothing,
                forward_to_overlay: false,
            };
        }
        let entered = self.state.entered(&event);
        let next = self.state.next(&event);
        let action = match event {
            LoopEvent::Failed { kind } => LoopAction::Abort { kind },
            LoopEvent::NewEvents { now } => {
                self.debug_ui.update(now);
                LoopAction::AdvanceOverlayClock
            },
            LoopEvent::ScaleFactorChanged { scale_factor } => {
                self.hidpi_factor = scale_factor;
                LoopAction::Nothing
            },
            LoopEvent::Resized { width, height } => {
                if self.renderer.resize(width, height, self.hidpi_factor) {
                    LoopAction::RebuildSwapChain { desc: self.renderer.swap_chain.desc }
                } else {
                    LoopAction::Nothing
                }
            },
            LoopEvent::MainEventsCleared => LoopAction::PrepareFrame,
            LoopEvent::RedrawRequested => LoopAction::AcquireFrame,
            LoopEvent::FrameAcquired { ready } => {
                match self.state {
                    LoopState::Rendering => self.render(ready),
                    _ => LoopAction::Nothing,
                }
            },
            _ => LoopAction::Nothing,
        };
        self.state = next;
        let control_flow = match next {
            LoopState::Exiting => ControlFlow::Exit,
            _ => ControlFlow::Poll,
        };
        let forward_to_overlay = self.debug_ui.handle_event(&event);
        Tick { entered, control_flow, action, forward_to_overlay }
    }

    /// Handles the events in order and returns what each of them came to.
    pub fn run(&mut self, events: &Vec<LoopEvent>) -> (ticks: Vec<Tick>)
        ensures
            *final(self) == old(self).after_all(events@),
            ticks@.len() == events@.len(),
            forall|i: int|
                0 <= i < events@.len() ==> (#[trigger] ticks@[i])@ == old(self).after_all(
                    events@.take(i),
                ).tick_on(events@[i]),
            old(self).wf() ==> final(self).wf(),
    {
        let mut ticks: Vec<Tick> = Vec::new();
        let mut i: usize = 0;
        assert(events@.take(0) =~= Seq::<LoopEvent>::empty());
        while i < events.len()
            invariant
                0 <= i <= events@.len(),
                *self == old(self).after_all(events@.take(i as int)),
                ticks@.len() == i,
                forall|k: int|
                    0 <= k < i ==> (#[trigger] ticks@[k])@ == old(self).after_all(
                        events@.take(k),
                    ).tick_on(events@[k]),
                old(self).wf() ==> self.wf(),
            decreases events@.len() - i,
        {
            let event = events[i];
            assert(events@.take(i + 1).drop_last() =~= events@.take(i as int));
            let tick = self.handle(event);
            ticks.push(tick);
            i = i + 1;
        }
        assert(events@.take(i as int) =~= events@);
        ticks
    }
}

/// The scale factor in force just before `events[i]`: that of the last
/// change of scale factor before it, or `initial` where there is none.
pub open spec fn factor_before(initial: ScaleFactor, events: Seq<LoopEvent>, i: int) -> ScaleFactor
    decreases i,
{
    if i <= 0 {
        initial
    } else {
        match events[i - 1] {
            LoopEvent::ScaleFactorChanged { scale_factor } => scale_factor,
            _ => factor_before(initial, events, i - 1),
        }
    }
}

/// `events[i]` is a resize, and no resize comes after it.
pub open spec fn is_last_resize(events: Seq<LoopEvent>, i: int) -> bool {
    &&& 0 <= i < events.len()
    &&& events[i] is Resized
    &&& forall|j: int| i < j < events.len() ==> !(#[trigger] events[j] is Resized)
}

proof fn lemma_factor_before_prefix(
    initial: ScaleFactor,
    events: Seq<LoopEvent>,
    n: int,
    i: int,
)
    requires
        0 <= i <= n <= events.len(),
    ensures
        factor_before(initial, events.take(n), i) == factor_before(initial, events, i),
    decreases i,
{
    if i > 0 {
        lemma_factor_before_prefix(initial, events, n, i - 1);
    }
}

/// The loop never leaves the state `Exiting`: where it still runs after
/// some events, it ran before each of them.
proof fn lemma_running_loop_ran_before(app: App, events: Seq<LoopEvent>, n: int)
    requires
        0 <= n <= events.len(),
        !(app.after_all(events).state is Exiting),
    ensures
        !(app.after_all(events.take(n)).state is Exiting),
    decreases events.len(),
{
    if n < events.len() {
        let before = events.drop_last();
        assert(before.take(n) =~= events.take(n));
        lemma_running_loop_ran_before(app, before, n);
    } else {
        assert(events.take(n) =~= events);
    }
}

/// As long as the loop runs, the swap chain has the size of the window at
/// the last resize, the graphics context holds the scale factor that was
/// in force at that resize, and the next redraw renders into a frame of
/// that swap chain. Without a resize the graphics context is as it was.
///
/// The size of the window is in physical pixels: the scale factor is
/// already in it, and is recorded beside it.
pub proof fn lemma_swap_chain_follows_last_resize(app: App, events: Seq<LoopEvent>)
    requires
        app.wf(),
        !(app.after_all(events).state is Exiting),
    ensures
        ({
            let end = app.after_all(events);
            &&& end.wf()
            &&& end.hidpi_factor == factor_before(app.hidpi_factor, events, events.len() as int)
            &&& forall|i: int| #[trigger]
                is_last_resize(events, i) ==> {
                    &&& events[i] matches LoopEvent::Resized { width, height }
                    &&& end.renderer.swap_chain.desc == surface_descriptor(width, height)
                    &&& end.renderer.hidpi_factor == factor_before(app.hidpi_factor, events, i)
                }
            &&& (forall|i: int| 0 <= i < events.len() ==> !(#[trigger] events[i] is Resized))
                ==> end.renderer == app.renderer
            &&& end.after(LoopEvent::RedrawRequested).action_on(
                LoopEvent::FrameAcquired { ready: true },
            ) == (LoopActionView::Submit { sequence: end.frame() })
            &&& end.frame().target.width == end.renderer.swap_chain.desc.width
            &&& end.frame().target.height == end.renderer.swap_chain.desc.height
        }),
    decreases events.len(),
{
    if events.len() > 0 {
        let n: int = events.len() - 1;
        let before = events.drop_last();
        let mid = app.after_all(before);
        let end = app.after_all(events);
        assert(before =~= events.take(n));
        lemma_running_loop_ran_before(app, events, n);
        lemma_swap_chain_follows_last_resize(app, before);
        assert(end == mid.after(events.last()));
        lemma_factor_before_prefix(app.hidpi_factor, events, n, n);
        assert forall|i: int| #[trigger] is_last_resize(events, i) implies {
            &&& events[i] matches LoopEvent::Resized { width, height }
            &&& end.renderer.swap_chain.desc == surface_descriptor(width, height)
            &&& end.renderer.hidpi_factor == factor_before(app.hidpi_factor, events, i)
        } by {
            if i < n {
                assert(!(events[n] is Resized));
                assert forall|j: int| i < j < before.len() implies !(#[trigger] before[j] is Resized) by {
                    assert(before[j] == events[j]);
                }
                assert(is_last_resize(before, i));
                lemma_factor_before_prefix(app.hidpi_factor, events, n, i);
            }
        }
        if forall|i: int| 0 <= i < events.len() ==> !(#[trigger] events[i] is Resized) {
            assert forall|i: int| 0 <= i < before.len() implies !(#[trigger] before[i] is Resized) by {
                assert(before[i] == events[i]);
            }
            assert(!(events[n] is Resized));
        }
    }
}

/// An exit request ends the loop from any state, within the tick that
/// handles it.
pub proof fn lemma_exit_request_ends_loop(app: App, event: LoopEvent)
    requires
        event.exit_requested(),
    ensures
        app.after(event).state is Exiting,
        app.tick_on(event).control_flow == ControlFlow::Exit,
        app.tick_on(event).action is Nothing,
{
}

/// A failure ends the loop as well: nothing is retried.
pub proof fn lemma_failure_ends_loop(app: App, kind: ErrorKind)
    ensures
        app.after(LoopEvent::Failed { kind }).state is Exiting,
        app.tick_on(LoopEvent::Failed { kind }).control_flow == ControlFlow::Exit,
        !(app.tick_on(LoopEvent::Failed { kind }).action is Submit),
{
}

/// Once the loop has ended it stays as it is, and no event makes it submit
/// a frame or do any other work.
pub proof fn lemma_nothing_happens_after_exit(app: App, events: Seq<LoopEvent>)
    requires
        app.state is Exiting,
    ensures
        app.after_all(events) == app,
        forall|i: int|
            0 <= i < events.len() ==> (#[trigger] app.after_all(events.take(i))).tick_on(
                events[i],
            ).action is Nothing,
    decreases events.len(),
{
    if events.len() > 0 {
        lemma_nothing_happens_after_exit(app, events.drop_last());
    }
    assert forall|i: int| 0 <= i < events.len() implies (#[trigger] app.after_all(
        events.take(i),
    )).tick_on(events[i]).action is Nothing by {
        lemma_nothing_happens_after_exit(app, events.take(i));
    }
}

/// After an exit request no frame is submitted any more, whatever events
/// follow.
pub proof fn lemma_no_frame_after_exit_request(
    app: App,
    request: LoopEvent,
    events: Seq<LoopEvent>,
    i: int,
)
    requires
        request.exit_requested(),
        0 <= i < events.len(),
    ensures
        app.after(request).after_all(events).state is Exiting,
        !(app.after(request).after_all(events.take(i)).tick_on(events[i]).action is Submit),
{
    lemma_nothing_happens_after_exit(app.after(request), events);
}

/// Every command sequence that the loop hands out for submission holds
/// exactly one draw, that of the triangle, and the overlay's commands come
/// after it.
pub proof fn lemma_submitted_frame_is_triangle_then_overlay(app: App, event: LoopEvent)
    ensures
        app.tick_on(event).action matches LoopActionView::Submit { sequence }
            ==> one_triangle_then_overlay(sequence.commands),
{
    if app.tick_on(event).action is Submit {
        lemma_frame_draws_triangle_then_overlay(
            app.renderer.swap_chain.generation,
            app.debug_ui.delta_s,
            app.debug_ui.demo_open,
        );
    }
}

/// A frame is submitted only in answer to a frame that was asked for and
/// came: never without a redraw request before it.
pub proof fn lemma_frame_needs_redraw_request(app: App, event: LoopEvent)
    ensures
        app.tick_on(event).action is Submit ==> app.state is Rendering && event == (
            LoopEvent::FrameAcquired { ready: true }
        ),
{
}

/// A frame that was asked for before a resize is not submitted after it:
/// it may belong to the swap chain that the resize replaced.
pub proof fn lemma_resize_drops_frame_in_flight(app: App, width: u32, height: u32)
    requires
        app.state is Rendering,
    ensures
        app.after(LoopEvent::Resized { width, height }).tick_on(
            LoopEvent::FrameAcquired { ready: true },
        ).action is Nothing,
{
}

} // verus!
