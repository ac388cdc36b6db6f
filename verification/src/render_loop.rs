//! The render loop: what each window event does to the host's state, what
//! the host does in answer, and what one frame draws.
//!
//! The loop itself runs outside the library. It hands every window event to
//! [`RenderLoop::window_event`] and carries out the reaction; when the
//! reaction asks for a frame it acquires one from the surface and hands the
//! outcome to [`RenderLoop::render`].

use crate::input::{Button, ElementState, InputEvent, InputTracker};
use crate::params::ShaderConstants;
use crate::scalar::{opaque_black, Scalar, Vec4};
use crate::session::{InitAction, InitEvent, Session, SurfaceConfig};
use vstd::prelude::*;

verus! {

/// A window event, as far as the loop tells events apart.
#[derive(Clone, Copy, Debug, PartialEq, Eq, Structural)]
pub enum HostEvent {
    CloseRequested,
    /// The surface is now `width` by `height` pixels.
    SurfaceResized { width: u32, height: u32 },
    Input(InputEvent),
    RedrawRequested,
    /// Any other event.
    Other,
}

/// What the loop does once an event is dealt with.
#[derive(Clone, Copy, Debug, PartialEq, Eq, Structural)]
pub enum FollowUp {
    /// Leave the event loop.
    Exit,
    /// Ask the window for another redraw.
    RequestRedraw,
    Nothing,
}

/// The answer to a window event. The caller carries it out in the order of
/// the fields, and then goes on polling.
#[derive(Clone, Copy, Debug, PartialEq, Eq, Structural)]
pub struct Reaction {
    /// Apply this configuration to the surface.
    pub reconfigure: Option<SurfaceConfig>,
    /// Acquire a frame and hand the outcome to [`RenderLoop::render`].
    pub acquire_frame: bool,
    pub follow_up: FollowUp,
}

/// Why the surface gave no frame.
#[derive(Clone, Copy, Debug, PartialEq, Eq, Structural)]
pub enum AcquireError {
    Timeout,
    Outdated,
    Lost,
    OutOfMemory,
}

/// One render pass: clear, set the viewport, bind the pipeline, push the
/// parameter block, draw.
#[derive(Clone, Copy, Debug, PartialEq, Eq, Structural)]
pub struct FramePlan {
    /// Colour that the target is cleared to.
    pub clear: Vec4,
    /// The viewport starts at the origin and has this size in pixels.
    pub viewport_width: u32,
    pub viewport_height: u32,
    /// The parameter block, pushed from offset zero to both stages.
    pub constants: ShaderConstants,
    /// Vertices of the one draw, from vertex zero.
    pub vertices: u32,
    /// Instances of the one draw, from instance zero.
    pub instances: u32,
}

/// What became of a tick.
#[derive(Clone, Copy, Debug, PartialEq, Eq, Structural)]
pub enum FrameOutcome {
    /// There is no session to render with.
    NotReady,
    /// The surface gave no frame. The tick is dropped; the next one tries
    /// again.
    Skipped(AcquireError),
    /// Encode this pass, submit it, present the frame.
    Draw(FramePlan),
}

/// One thing that happens to the loop: a window event, or a frame with the
/// outcome of its acquisition and the time at which it is built.
pub enum Tick {
    Event(HostEvent),
    Frame { acquired: Result<(), AcquireError>, time: Scalar },
}

/// The state of the host.
#[derive(Clone, Copy, Debug, PartialEq, Eq, Structural)]
pub struct RenderLoop {
    pub session: Session,
    pub input: InputTracker,
    /// Set by a close request or by Escape; never cleared.
    pub close_requested: bool,
}

/// The pass that draws `constants` to a surface configured as `config`: the
/// target cleared to opaque black, the viewport over the whole surface, one
/// draw of three vertices and one instance.
pub open spec fn frame_plan(config: SurfaceConfig, constants: ShaderConstants) -> FramePlan {
    FramePlan {
        clear: opaque_black(),
        viewport_width: config.width,
        viewport_height: config.height,
        constants,
        vertices: 3,
        instances: 1,
    }
}

impl Tick {
    /// The event of the left button going down.
    pub open spec fn is_left_press(self) -> bool {
        self matches Tick::Event(HostEvent::Input(event)) && event.is_left_press()
    }

    /// A resize event.
    pub open spec fn is_resize(self) -> bool {
        self matches Tick::Event(HostEvent::SurfaceResized { .. })
    }

    /// A frame whose acquisition failed.
    pub open spec fn is_failed_frame(self) -> bool {
        self matches Tick::Frame { acquired: Err(_), .. }
    }
}

impl RenderLoop {
    /// The host before start-up.
    pub open spec fn initial() -> RenderLoop {
        RenderLoop {
            session: Session::Uninitialized,
            input: InputTracker::initial(),
            close_requested: false,
        }
    }

    /// The host after `event`.
    ///
    /// A close request raises the exit flag, and so does an input event that
    /// asks for shutdown. A resize goes to the session, an input event to
    /// the tracker. A redraw request changes nothing by itself.
    pub open spec fn after_event(self, event: HostEvent) -> RenderLoop {
        match event {
            HostEvent::CloseRequested => RenderLoop { close_requested: true, ..self },
            HostEvent::SurfaceResized { width, height } => RenderLoop {
                session: self.session.resized(width, height),
                ..self
            },
            HostEvent::Input(input) => RenderLoop {
                input: self.input.after(input),
                close_requested: self.close_requested || input.requests_shutdown(),
                ..self
            },
            _ => self,
        }
    }

    /// What the loop does at the end of an event or of an idle turn: exit
    /// if the exit flag is up, else ask for a redraw if there is a session
    /// to draw with.
    pub open spec fn follow_up(self) -> FollowUp {
        if self.close_requested {
            FollowUp::Exit
        } else if self.session is Ready {
            FollowUp::RequestRedraw
        } else {
            FollowUp::Nothing
        }
    }

    /// The answer to `event`.
    ///
    /// A resize is applied to the surface at once if the session is ready,
    /// with the configuration that holds the new size. A redraw request
    /// asks for a frame if the session is ready.
    pub open spec fn reaction(self, event: HostEvent) -> Reaction {
        Reaction {
            reconfigure: if event is SurfaceResized {
                self.after_event(event).session.spec_config()
            } else {
                None
            },
            acquire_frame: event is RedrawRequested && self.session is Ready,
            follow_up: self.after_event(event).follow_up(),
        }
    }

    /// The host after a frame, and what became of the frame.
    ///
    /// Without a ready session nothing happens. A failed acquisition leaves
    /// the host as it was. Otherwise the frame draws the tracker's block for
    /// the configured surface size, and the click is consumed.
    pub open spec fn frame(self, acquired: Result<(), AcquireError>, time: Scalar) -> (
        RenderLoop,
        FrameOutcome,
    ) {
        match self.session {
            Session::Ready { config } => match acquired {
                Ok(_) => (
                    RenderLoop { input: self.input.after_snapshot(), ..self },
                    FrameOutcome::Draw(
                        frame_plan(config, self.input.block(config.width, config.height, time)),
                    ),
                ),
                Err(error) => (self, FrameOutcome::Skipped(error)),
            },
            _ => (self, FrameOutcome::NotReady),
        }
    }

    /// The host after `tick`.
    pub open spec fn after_tick(self, tick: Tick) -> RenderLoop {
        match tick {
            Tick::Event(event) => self.after_event(event),
            Tick::Frame { acquired, time } => self.frame(acquired, time).0,
        }
    }

    /// The host after the ticks of `ticks`, first to last.
    pub open spec fn after_ticks(self, ticks: Seq<Tick>) -> RenderLoop
        decreases ticks.len(),
    {
        if ticks.len() == 0 {
            self
        } else {
            self.after_ticks(ticks.drop_last()).after_tick(ticks.last())
        }
    }

    /// A host before start-up: no session, a fresh tracker, no exit asked.
    pub fn new() -> (host: RenderLoop)
        ensures
            host == RenderLoop::initial(),
    {
        RenderLoop { session: Session::new(), input: InputTracker::new(), close_requested: false }
    }

    /// Starts to set the session up; see [`Session::begin`]. Tracker and
    /// exit flag are kept.
    pub fn begin_init(&mut self, passthrough: bool) -> (action: InitAction)
        ensures
            *final(self) == (RenderLoop {
                session: old(self).session.begun(passthrough),
                ..*old(self)
            }),
            action == old(self).session.first_action(),
    {
        self.session.begin(passthrough)
    }

    /// Takes the answer to the pending start-up request; see
    /// [`Session::advance`]. Tracker and exit flag are kept.
    pub fn init_event(&mut self, event: InitEvent) -> (action: InitAction)
        ensures
            *final(self) == (RenderLoop {
                session: old(self).session.step(event).0,
                ..*old(self)
            }),
            action == old(self).session.step(event).1,
    {
        self.session.advance(event)
    }

    /// Takes in one window event and says what to do about it.
    pub fn window_event(&mut self, event: HostEvent) -> (reaction: Reaction)
        ensures
            *final(self) == old(self).after_event(event),
            reaction == old(self).reaction(event),
    {
        let mut reconfigure: Option<SurfaceConfig> = None;
        let mut acquire_frame = false;
        match event {
            HostEvent::CloseRequested => {
                self.close_requested = true;
            },
            HostEvent::SurfaceResized { width, height } => {
                reconfigure = self.session.resize(width, height);
            },
            HostEvent::Input(input) => {
                if self.input.handle(input) {
                    self.close_requested = true;
                }
            },
            HostEvent::RedrawRequested => {
                acquire_frame = self.session.is_ready();
            },
            HostEvent::Other => {},
        }
        Reaction { reconfigure, acquire_frame, follow_up: self.about_to_wait() }
    }

    /// What to do when the event queue has run dry: the same as at the end
    /// of an event.
    pub fn about_to_wait(&self) -> (follow_up: FollowUp)
        ensures
            follow_up == self.follow_up(),
    {
        if self.close_requested {
            FollowUp::Exit
        } else if self.session.is_ready() {
            FollowUp::RequestRedraw
        } else {
            FollowUp::Nothing
        }
    }

    /// Builds one frame from the outcome of its acquisition and the time
    /// elapsed since the session started.
    pub fn render(&mut self, acquired: Result<(), AcquireError>, time: Scalar) -> (outcome:
        FrameOutcome)
        ensures
            (*final(self), outcome) == old(self).frame(acquired, time),
    {
        let config = match self.session.config() {
            Some(config) => config,
            None => {
                return FrameOutcome::NotReady;
            },
        };
        if let Err(error) = acquired {
            return FrameOutcome::Skipped(error);
        }
        let constants = self.input.snapshot(config.width, config.height, time);
        FrameOutcome::Draw(
            FramePlan {
                clear: Vec4 {
                    x: Scalar::zero(),
                    y: Scalar::zero(),
                    z: Scalar::zero(),
                    w: Scalar::one(),
                },
                viewport_width: config.width,
                viewport_height: config.height,
                constants,
                vertices: 3,
                instances: 1,
            },
        )
    }

    /// The event loop is about to end: the session is given up. Tracker and
    /// exit flag are kept.
    pub fn exiting(&mut self)
        ensures
            *final(self) == (RenderLoop { session: Session::Released, ..*old(self) }),
    {
        self.session.release();
    }
}

/// The event of the left button going down.
pub open spec fn left_press() -> HostEvent {
    HostEvent::Input(
        InputEvent::PointerButton { button: Button::Left, state: ElementState::Pressed },
    )
}

/// No tick ends a session or starts one: after any run of ticks the session
/// is the one it was, but for the size in the configuration of a ready one.
/// So a session fails only while it is set up, never in the steady state.
pub proof fn law_ticks_keep_session(host: RenderLoop, ticks: Seq<Tick>)
    ensures
        host.session is Ready <==> host.after_ticks(ticks).session is Ready,
        !(host.session is Ready) ==> host.after_ticks(ticks).session == host.session,
        host.session matches Session::Ready { config } ==> ({
            let after = host.after_ticks(ticks).session->config;
            after.format == config.format && after.vsync == config.vsync
        }),
    decreases ticks.len(),
{
    if ticks.len() > 0 {
        law_ticks_keep_session(host, ticks.drop_last());
    }
}

/// Surface, device and window are left alone unless the session is ready:
/// a host without a ready session orders no reconfiguration, no frame and no
/// redraw, whatever the event, and draws nothing. With the law above this
/// holds from the release of the session on, for good.
pub proof fn law_only_a_ready_session_is_used(
    host: RenderLoop,
    event: HostEvent,
    acquired: Result<(), AcquireError>,
    time: Scalar,
)
    requires
        !(host.session is Ready),
    ensures
        host.reaction(event).reconfigure is None,
        !host.reaction(event).acquire_frame,
        host.reaction(event).follow_up != FollowUp::RequestRedraw,
        host.follow_up() != FollowUp::RequestRedraw,
        host.frame(acquired, time) == (host, FrameOutcome::NotReady),
{
}

/// Once the exit flag is up it stays up, and every later event is answered
/// with the order to exit.
pub proof fn law_exit_flag_stays_up(host: RenderLoop, ticks: Seq<Tick>, event: HostEvent)
    requires
        host.close_requested,
    ensures
        host.after_ticks(ticks).close_requested,
        host.after_ticks(ticks).follow_up() == FollowUp::Exit,
        host.after_ticks(ticks).reaction(event).follow_up == FollowUp::Exit,
    decreases ticks.len(),
{
    if ticks.len() > 0 {
        law_exit_flag_stays_up(host, ticks.drop_last(), event);
    }
}

/// A click is drawn by exactly one frame. Of a ready host, the frame built
/// right after a left press reports the click. Any frame built after that
/// one and before the next left press, whatever else happened in between,
/// reports none.
pub proof fn law_click_drawn_once(host: RenderLoop, first: Scalar, later: Seq<Tick>, second: Scalar)
    requires
        host.session is Ready,
        forall|i: int| 0 <= i < later.len() ==> !(#[trigger] later[i]).is_left_press(),
    ensures
        ({
            let pressed = host.after_event(left_press());
            let (drawn, outcome) = pressed.frame(Ok(()), first);
            let (_, next) = drawn.after_ticks(later).frame(Ok(()), second);
            &&& outcome matches FrameOutcome::Draw(plan) && plan.constants.mouse_left_clicked == 1
            &&& next matches FrameOutcome::Draw(plan) && plan.constants.mouse_left_clicked == 0
        }),
{
    let drawn = host.after_event(left_press()).frame(Ok(()), first).0;
    law_ticks_keep_session(drawn, later);
    lemma_click_stays_down(drawn, later);
}

/// Without a left press the click flag does not come up.
proof fn lemma_click_stays_down(host: RenderLoop, ticks: Seq<Tick>)
    requires
        !host.input.mouse_left_clicked,
        forall|i: int| 0 <= i < ticks.len() ==> !(#[trigger] ticks[i]).is_left_press(),
    ensures
        !host.after_ticks(ticks).input.mouse_left_clicked,
    decreases ticks.len(),
{
    if ticks.len() > 0 {
        lemma_click_stays_down(host, ticks.drop_last());
        assert(!ticks.last().is_left_press());
    }
}

/// A resize shows in the next frame. When a ready host has taken a resize to
/// `width` by `height`, the next frame whose acquisition succeeds, with no
/// other resize before it, is built for that size: in the parameter block
/// and in the viewport.
pub proof fn law_resize_reaches_next_frame(
    host: RenderLoop,
    width: u32,
    height: u32,
    between: Seq<Tick>,
    time: Scalar,
)
    requires
        host.session is Ready,
        forall|i: int| 0 <= i < between.len() ==> !(#[trigger] between[i]).is_resize(),
    ensures
        ({
            let resized = host.after_event(HostEvent::SurfaceResized { width, height });
            let (_, outcome) = resized.after_ticks(between).frame(Ok(()), time);
            &&& outcome matches FrameOutcome::Draw(plan)
            &&& plan.constants.surface_width == width
            &&& plan.constants.surface_height == height
            &&& plan.viewport_width == width
            &&& plan.viewport_height == height
        }),
{
    lemma_size_kept(host.after_event(HostEvent::SurfaceResized { width, height }), between);
}

/// Without a resize the session stays as it is.
proof fn lemma_size_kept(host: RenderLoop, ticks: Seq<Tick>)
    requires
        forall|i: int| 0 <= i < ticks.len() ==> !(#[trigger] ticks[i]).is_resize(),
    ensures
        host.after_ticks(ticks).session == host.session,
    decreases ticks.len(),
{
    if ticks.len() > 0 {
        lemma_size_kept(host, ticks.drop_last());
        assert(!ticks.last().is_resize());
    }
}

/// A frame that cannot be acquired does no harm. After any run of failed
/// acquisitions the host is exactly as before: the session has not failed,
/// and a ready host answers the next redraw request by asking for a frame
/// again.
pub proof fn law_failed_acquisition_changes_nothing(host: RenderLoop, failures: Seq<Tick>)
    requires
        forall|i: int| 0 <= i < failures.len() ==> (#[trigger] failures[i]).is_failed_frame(),
    ensures
        host.after_ticks(failures) == host,
        host.session is Ready ==> host.after_ticks(failures).reaction(
            HostEvent::RedrawRequested,
        ).acquire_frame,
    decreases failures.len(),
{
    if failures.len() > 0 {
        law_failed_acquisition_changes_nothing(host, failures.drop_last());
        assert(failures.last().is_failed_frame());
    }
}

} // verus!
