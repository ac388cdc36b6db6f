//! The GPU session: what is asked of the device at start-up, in which
//! order, and what becomes of the session when an answer is a refusal.
//!
//! The library performs none of the requests. It says which request comes
//! next, takes the answer as an event, and keeps the state of the
//! negotiation.

use crate::params::PUSH_CONSTANT_SIZE;
use vstd::prelude::*;

verus! {

/// Largest block of push data that the device is asked to accept, in bytes.
pub const MAX_PUSH_CONSTANT_SIZE: u32 = 256;

/// Entry point of the vertex stage in the shader module.
pub const VERTEX_ENTRY: &'static str = "main_vs";

/// Entry point of the fragment stage in the shader module.
pub const FRAGMENT_ENTRY: &'static str = "main_fs";

/// Why a session could not be set up. Each of these is fatal.
#[derive(Clone, Copy, Debug, PartialEq, Eq, Structural)]
pub enum InitError {
    /// No adapter can present to the surface.
    AdapterUnavailable,
    /// The adapter refused the device that was asked for.
    DeviceRequestFailed,
    /// The window gave no surface.
    SurfaceCreationFailed,
}

/// What is asked of the instance when an adapter is requested.
#[derive(Clone, Copy, Debug, PartialEq, Eq, Structural)]
pub struct AdapterRequest {
    /// Prefer performance over power saving.
    pub high_performance: bool,
    /// The adapter must be able to present to the session's surface.
    pub compatible_with_surface: bool,
    /// Accept only a software adapter.
    pub force_fallback: bool,
}

/// What is asked of the adapter when a device is requested.
#[derive(Clone, Copy, Debug, PartialEq, Eq, Structural)]
pub struct DeviceRequest {
    /// Push data must be supported.
    pub push_constants: bool,
    /// Binary shader modules must be accepted without translation.
    pub spirv_passthrough: bool,
    /// The device must accept this many bytes of push data.
    pub max_push_constant_size: u32,
}

/// The one render pipeline of a session.
///
/// Its vertex stage makes up the three corners of a triangle that covers
/// the screen; its fragment stage is the payload.
#[derive(Clone, Copy, Debug, PartialEq, Eq, Structural)]
pub struct PipelinePlan {
    /// Load the binary shader module as it is; if false, have it translated.
    pub passthrough: bool,
    /// Bytes of push data, from offset zero, that both stages see.
    pub push_constant_size: u32,
    /// Number of vertex buffers.
    pub vertex_buffers: u32,
    /// Number of bind groups in the layout.
    pub bind_groups: u32,
}

/// How the surface is configured.
#[derive(Clone, Copy, Debug, PartialEq, Eq, Structural)]
pub struct SurfaceConfig {
    /// Position of the pixel format in the list that the surface reports
    /// for the adapter.
    pub format: usize,
    pub width: u32,
    pub height: u32,
    /// Present in step with the display: never tear, always wait.
    pub vsync: bool,
}

/// The request that is pending while a session is being set up.
#[derive(Clone, Copy, Debug, PartialEq, Eq, Structural)]
pub enum InitStage {
    /// A surface for the window.
    Surface,
    /// An adapter, for a window of this size.
    Adapter { width: u32, height: u32 },
    /// A device, for a window of this size.
    Device { width: u32, height: u32 },
}

/// The answer to a request.
#[derive(Clone, Copy, Debug, PartialEq, Eq, Structural)]
pub enum InitEvent {
    /// The window gave a surface; the window is `width` by `height` pixels.
    SurfaceCreated { width: u32, height: u32 },
    SurfaceFailed,
    /// An adapter was found; the surface reports `formats` pixel formats
    /// for it.
    AdapterFound { formats: usize },
    AdapterMissing,
    DeviceGranted,
    DeviceRefused,
}

/// What the caller does next.
#[derive(Clone, Copy, Debug, PartialEq, Eq, Structural)]
pub enum InitAction {
    CreateSurface,
    RequestAdapter(AdapterRequest),
    RequestDevice(DeviceRequest),
    /// Load the shader module, build the pipeline and configure the
    /// surface. The session is ready.
    Build { pipeline: PipelinePlan, config: SurfaceConfig },
    /// Give up: report the error and leave the event loop.
    Abort(InitError),
    /// The event answers no pending request.
    Nothing,
}

/// The life of a session.
#[derive(Clone, Copy, Debug, PartialEq, Eq, Structural)]
pub enum Session {
    Uninitialized,
    /// Being set up. `passthrough` says whether the platform takes binary
    /// shader modules without translation.
    Initializing { stage: InitStage, passthrough: bool },
    Ready { config: SurfaceConfig },
    Failed(InitError),
    /// Given up at exit. Nothing follows.
    Released,
}

/// The adapter request of every session.
pub open spec fn adapter_request() -> AdapterRequest {
    AdapterRequest { high_performance: true, compatible_with_surface: true, force_fallback: false }
}

/// The device request of a session: push data of up to
/// `MAX_PUSH_CONSTANT_SIZE` bytes, and untranslated shader modules where the
/// platform has them.
pub open spec fn device_request(passthrough: bool) -> DeviceRequest {
    DeviceRequest {
        push_constants: true,
        spirv_passthrough: passthrough,
        max_push_constant_size: MAX_PUSH_CONSTANT_SIZE,
    }
}

/// The pipeline of a session: no vertex buffers, no bind groups, and the
/// parameter block as the only push data.
pub open spec fn pipeline_plan(passthrough: bool) -> PipelinePlan {
    PipelinePlan {
        passthrough,
        push_constant_size: PUSH_CONSTANT_SIZE,
        vertex_buffers: 0,
        bind_groups: 0,
    }
}

/// The configuration that a session starts with: the format that the
/// surface lists first, the size of the window, presentation in step with
/// the display.
pub open spec fn first_config(width: u32, height: u32) -> SurfaceConfig {
    SurfaceConfig { format: 0, width, height, vsync: true }
}

impl Session {
    /// The session when a start-up begins: waiting for the surface, unless
    /// it was released.
    pub open spec fn begun(self, passthrough: bool) -> Session {
        if self is Released {
            self
        } else {
            Session::Initializing { stage: InitStage::Surface, passthrough }
        }
    }

    /// The action that opens a start-up.
    pub open spec fn first_action(self) -> InitAction {
        if self is Released {
            InitAction::Nothing
        } else {
            InitAction::CreateSurface
        }
    }

    /// The session and the next action after `event`.
    ///
    /// An event moves the session only if it answers the pending request. A
    /// surface leads to the adapter request, an adapter with at least one
    /// format to the device request, a device to the build. A refusal, or an
    /// adapter for which the surface reports no format, fails the session.
    pub open spec fn step(self, event: InitEvent) -> (Session, InitAction) {
        match (self, event) {
            (
                Session::Initializing { stage: InitStage::Surface, passthrough },
                InitEvent::SurfaceCreated { width, height },
            ) => (
                Session::Initializing { stage: InitStage::Adapter { width, height }, passthrough },
                InitAction::RequestAdapter(adapter_request()),
            ),
            (
                Session::Initializing { stage: InitStage::Surface, .. },
                InitEvent::SurfaceFailed,
            ) => (
                Session::Failed(InitError::SurfaceCreationFailed),
                InitAction::Abort(InitError::SurfaceCreationFailed),
            ),
            (
                Session::Initializing { stage: InitStage::Adapter { width, height }, passthrough },
                InitEvent::AdapterFound { formats },
            ) => if formats > 0 {
                (
                    Session::Initializing {
                        stage: InitStage::Device { width, height },
                        passthrough,
                    },
                    InitAction::RequestDevice(device_request(passthrough)),
                )
            } else {
                (
                    Session::Failed(InitError::AdapterUnavailable),
                    InitAction::Abort(InitError::AdapterUnavailable),
                )
            },
            (
                Session::Initializing { stage: InitStage::Adapter { .. }, .. },
                InitEvent::AdapterMissing,
            ) => (
                Session::Failed(InitError::AdapterUnavailable),
                InitAction::Abort(InitError::AdapterUnavailable),
            ),
            (
                Session::Initializing { stage: InitStage::Device { width, height }, passthrough },
                InitEvent::DeviceGranted,
            ) => (
                Session::Ready { config: first_config(width, height) },
                InitAction::Build {
                    pipeline: pipeline_plan(passthrough),
                    config: first_config(width, height),
                },
            ),
            (
                Session::Initializing { stage: InitStage::Device { .. }, .. },
                InitEvent::DeviceRefused,
            ) => (
                Session::Failed(InitError::DeviceRequestFailed),
                InitAction::Abort(InitError::DeviceRequestFailed),
            ),
            _ => (self, InitAction::Nothing),
        }
    }

    /// The session after a resize to `width` by `height`: a ready session
    /// takes the new size into its configuration, any other is unchanged.
    pub open spec fn resized(self, width: u32, height: u32) -> Session {
        match self {
            Session::Ready { config } => Session::Ready {
                config: SurfaceConfig { width, height, ..config },
            },
            _ => self,
        }
    }

    /// Whether the session, if it is ready, presents in the first format
    /// and in step with the display.
    pub open spec fn in_step(self) -> bool {
        self matches Session::Ready { config } ==> config.vsync && config.format == 0
    }

    /// The configuration of a ready session.
    pub open spec fn spec_config(self) -> Option<SurfaceConfig> {
        match self {
            Session::Ready { config } => Some(config),
            _ => None,
        }
    }

    /// A session that has not been set up.
    pub fn new() -> (session: Session)
        ensures
            session == Session::Uninitialized,
    {
        Session::Uninitialized
    }

    /// Starts to set the session up, or to set it up anew: whatever it held
    /// is dropped, and the first request is the surface. A released session
    /// stays released, and nothing is asked.
    pub fn begin(&mut self, passthrough: bool) -> (action: InitAction)
        ensures
            *final(self) == old(self).begun(passthrough),
            action == old(self).first_action(),
    {
        match *self {
            Session::Released => InitAction::Nothing,
            _ => {
                *self = Session::Initializing { stage: InitStage::Surface, passthrough };
                InitAction::CreateSurface
            },
        }
    }

    /// Takes the answer to the pending request and says what comes next.
    pub fn advance(&mut self, event: InitEvent) -> (action: InitAction)
        ensures
            (*final(self), action) == old(self).step(event),
    {
        let (next, action) = match (*self, event) {
            (
                Session::Initializing { stage: InitStage::Surface, passthrough },
                InitEvent::SurfaceCreated { width, height },
            ) => (
                Session::Initializing { stage: InitStage::Adapter { width, height }, passthrough },
                InitAction::RequestAdapter(
                    AdapterRequest {
                        high_performance: true,
                        compatible_with_surface: true,
                        force_fallback: false,
                    },
                ),
            ),
            (
                Session::Initializing { stage: InitStage::Surface, .. },
                InitEvent::SurfaceFailed,
            ) => Session::failure(InitError::SurfaceCreationFailed),
            (
                Session::Initializing { stage: InitStage::Adapter { width, height }, passthrough },
                InitEvent::AdapterFound { formats },
            ) => if formats > 0 {
                (
                    Session::Initializing {
                        stage: InitStage::Device { width, height },
                        passthrough,
                    },
                    InitAction::RequestDevice(
                        DeviceRequest {
                            push_constants: true,
                            spirv_passthrough: passthrough,
                            max_push_constant_size: MAX_PUSH_CONSTANT_SIZE,
                        },
                    ),
                )
            } else {
                Session::failure(InitError::AdapterUnavailable)
            },
            (
                Session::Initializing { stage: InitStage::Adapter { .. }, .. },
                InitEvent::AdapterMissing,
            ) => Session::failure(InitError::AdapterUnavailable),
            (
                Session::Initializing { stage: InitStage::Device { width, height }, passthrough },
                InitEvent::DeviceGranted,
            ) => {
                let config = SurfaceConfig { format: 0, width, height, vsync: true };
                let pipeline = PipelinePlan {
                    passthrough,
                    push_constant_size: PUSH_CONSTANT_SIZE,
                    vertex_buffers: 0,
                    bind_groups: 0,
                };
                (Session::Ready { config }, InitAction::Build { pipeline, config })
            },
            (
                Session::Initializing { stage: InitStage::Device { .. }, .. },
                InitEvent::DeviceRefused,
            ) => Session::failure(InitError::DeviceRequestFailed),
            (session, _) => (session, InitAction::Nothing),
        };
        *self = next;
        action
    }

    fn failure(error: InitError) -> (r: (Session, InitAction))
        ensures
            r == (Session::Failed(error), InitAction::Abort(error)),
    {
        (Session::Failed(error), InitAction::Abort(error))
    }

    /// Whether the session is set up and can render.
    pub fn is_ready(&self) -> (ready: bool)
        ensures
            ready == (*self is Ready),
    {
        match self {
            Session::Ready { .. } => true,
            _ => false,
        }
    }

    /// The configuration of the surface, if the session is ready.
    pub fn config(&self) -> (config: Option<SurfaceConfig>)
        ensures
            config == self.spec_config(),
    {
        match self {
            Session::Ready { config } => Some(*config),
            _ => None,
        }
    }

    /// Takes a new surface size. A ready session records it and returns the
    /// configuration to apply to the surface again. Any other session has no
    /// device to configure with: it ignores the size and returns `None`.
    pub fn resize(&mut self, width: u32, height: u32) -> (apply: Option<SurfaceConfig>)
        ensures
            *final(self) == old(self).resized(width, height),
            apply == final(self).spec_config(),
    {
        match *self {
            Session::Ready { config } => {
                let config = SurfaceConfig { format: config.format, width, height, vsync: config.vsync };
                *self = Session::Ready { config };
                Some(config)
            },
            _ => None,
        }
    }

    /// Gives the session up at exit.
    pub fn release(&mut self)
        ensures
            *final(self) == Session::Released,
    {
        *self = Session::Released;
    }
}

/// The answers that the outside gives in the course of one start-up.
pub struct Answers {
    /// The size of the window, if it gave a surface.
    pub surface: Option<(u32, u32)>,
    /// The number of formats that the surface reports for the adapter, if
    /// one was found.
    pub adapter: Option<usize>,
    /// Whether the adapter granted the device.
    pub device: bool,
}

impl Answers {
    /// The events that reach the session: each answer in turn, up to and
    /// including the first refusal.
    pub open spec fn transcript(self) -> Seq<InitEvent> {
        match self.surface {
            None => seq![InitEvent::SurfaceFailed],
            Some((width, height)) => match self.adapter {
                None => seq![InitEvent::SurfaceCreated { width, height }, InitEvent::AdapterMissing],
                Some(formats) => if formats == 0 {
                    seq![
                        InitEvent::SurfaceCreated { width, height },
                        InitEvent::AdapterFound { formats },
                    ]
                } else {
                    seq![
                        InitEvent::SurfaceCreated { width, height },
                        InitEvent::AdapterFound { formats },
                        if self.device {
                            InitEvent::DeviceGranted
                        } else {
                            InitEvent::DeviceRefused
                        },
                    ]
                },
            },
        }
    }

    /// What a start-up with these answers comes to.
    pub open spec fn outcome(self) -> Session {
        match self.surface {
            None => Session::Failed(InitError::SurfaceCreationFailed),
            Some((width, height)) => match self.adapter {
                None => Session::Failed(InitError::AdapterUnavailable),
                Some(formats) => if formats == 0 {
                    Session::Failed(InitError::AdapterUnavailable)
                } else if self.device {
                    Session::Ready { config: first_config(width, height) }
                } else {
                    Session::Failed(InitError::DeviceRequestFailed)
                },
            },
        }
    }
}

impl Session {
    /// The session after the events of `events`, first to last.
    pub open spec fn after_events(self, events: Seq<InitEvent>) -> Session
        decreases events.len(),
    {
        if events.len() == 0 {
            self
        } else {
            self.after_events(events.drop_last()).step(events.last()).0
        }
    }
}

/// A start-up ends ready or failed, and the answers alone decide which. It
/// ends ready exactly when the window gave a surface, an adapter with at
/// least one format was found and the device was granted; the surface is
/// then configured with the first format, the size of the window and
/// presentation in step with the display. Otherwise it fails with the error
/// of the first refusal. What the session held before does not matter, as
/// long as it was not released.
pub proof fn law_start_up(session: Session, passthrough: bool, answers: Answers)
    requires
        !(session is Released),
    ensures
        session.begun(passthrough).after_events(answers.transcript()) == answers.outcome(),
{
    let events = answers.transcript();
    reveal_with_fuel(Session::after_events, 4);
    if events.len() == 1 {
        assert(events.drop_last().len() == 0);
    } else if events.len() == 2 {
        assert(events.drop_last().drop_last().len() == 0);
        assert(events.drop_last().last() == events[0]);
    } else {
        assert(events.drop_last().drop_last().drop_last().len() == 0);
        assert(events.drop_last().drop_last().last() == events[0]);
        assert(events.drop_last().last() == events[1]);
    }
}

/// A session fails only in answer to a refusal while it is being set up,
/// and becomes ready only when the device is granted.
pub proof fn law_only_start_up_decides(session: Session, event: InitEvent)
    ensures
        session.step(event).0 is Failed && !(session is Failed) ==> session is Initializing,
        session.step(event).0 is Ready && !(session is Ready) ==> session is Initializing && event
            == InitEvent::DeviceGranted,
        session.step(event).1 is Nothing ==> session.step(event).0 == session,
{
}

/// No session tears: a new session is in step, and whatever is done to a
/// session that is in step, by a start-up, an answer or a resize, leaves it
/// in step.
pub proof fn law_presentation_stays_in_step(
    session: Session,
    passthrough: bool,
    event: InitEvent,
    width: u32,
    height: u32,
)
    requires
        session.in_step(),
    ensures
        Session::Uninitialized.in_step(),
        session.begun(passthrough).in_step(),
        session.step(event).0.in_step(),
        session.resized(width, height).in_step(),
{
}

/// The parameter block fits the push data that the device is asked for.
pub proof fn law_block_fits_push_limit(passthrough: bool)
    ensures
        pipeline_plan(passthrough).push_constant_size <= device_request(
            passthrough,
        ).max_push_constant_size,
        device_request(passthrough).push_constants,
{
}

} // verus!
