use shadertoy_host::params::PUSH_CONSTANT_SIZE;
use shadertoy_host::session::{
    AdapterRequest, DeviceRequest, InitAction, InitError, InitEvent, InitStage, PipelinePlan,
    Session, SurfaceConfig, FRAGMENT_ENTRY, MAX_PUSH_CONSTANT_SIZE, VERTEX_ENTRY,
};

fn ready(width: u32, height: u32) -> Session {
    let mut session = Session::new();
    session.begin(true);
    session.advance(InitEvent::SurfaceCreated { width, height });
    session.advance(InitEvent::AdapterFound { formats: 2 });
    session.advance(InitEvent::DeviceGranted);
    session
}

#[test]
fn entry_points_are_named() {
    assert_eq!(VERTEX_ENTRY, "main_vs");
    assert_eq!(FRAGMENT_ENTRY, "main_fs");
}

#[test]
fn start_up_asks_in_order_and_ends_ready() {
    let mut session = Session::new();
    assert_eq!(session, Session::Uninitialized);
    assert!(!session.is_ready());
    assert_eq!(session.config(), None);

    assert_eq!(session.begin(true), InitAction::CreateSurface);
    assert_eq!(session, Session::Initializing { stage: InitStage::Surface, passthrough: true });

    assert_eq!(
        session.advance(InitEvent::SurfaceCreated { width: 1280, height: 720 }),
        InitAction::RequestAdapter(AdapterRequest {
            high_performance: true,
            compatible_with_surface: true,
            force_fallback: false,
        })
    );
    assert_eq!(
        session.advance(InitEvent::AdapterFound { formats: 3 }),
        InitAction::RequestDevice(DeviceRequest {
            push_constants: true,
            spirv_passthrough: true,
            max_push_constant_size: 256,
        })
    );
    assert!(!session.is_ready());
    let config = SurfaceConfig { format: 0, width: 1280, height: 720, vsync: true };
    assert_eq!(
        session.advance(InitEvent::DeviceGranted),
        InitAction::Build {
            pipeline: PipelinePlan {
                passthrough: true,
                push_constant_size: 44,
                vertex_buffers: 0,
                bind_groups: 0,
            },
            config,
        }
    );
    assert_eq!(session, Session::Ready { config });
    assert!(session.is_ready());
    assert_eq!(session.config(), Some(config));
}

#[test]
fn without_passthrough_the_module_is_translated() {
    let mut session = Session::new();
    session.begin(false);
    session.advance(InitEvent::SurfaceCreated { width: 800, height: 600 });
    match session.advance(InitEvent::AdapterFound { formats: 1 }) {
        InitAction::RequestDevice(request) => {
            assert!(request.push_constants);
            assert!(!request.spirv_passthrough);
            assert_eq!(request.max_push_constant_size, MAX_PUSH_CONSTANT_SIZE);
        }
        other => panic!("unexpected action {:?}", other),
    }
    match session.advance(InitEvent::DeviceGranted) {
        InitAction::Build { pipeline, config } => {
            assert!(!pipeline.passthrough);
            assert_eq!(pipeline.push_constant_size, PUSH_CONSTANT_SIZE);
            assert_eq!(config, SurfaceConfig { format: 0, width: 800, height: 600, vsync: true });
        }
        other => panic!("unexpected action {:?}", other),
    }
}

#[test]
fn a_window_without_surface_fails_the_session() {
    let mut session = Session::new();
    session.begin(true);
    assert_eq!(
        session.advance(InitEvent::SurfaceFailed),
        InitAction::Abort(InitError::SurfaceCreationFailed)
    );
    assert_eq!(session, Session::Failed(InitError::SurfaceCreationFailed));
    assert!(!session.is_ready());
}

#[test]
fn a_missing_adapter_fails_the_session() {
    let mut session = Session::new();
    session.begin(true);
    session.advance(InitEvent::SurfaceCreated { width: 1280, height: 720 });
    assert_eq!(
        session.advance(InitEvent::AdapterMissing),
        InitAction::Abort(InitError::AdapterUnavailable)
    );
    assert_eq!(session, Session::Failed(InitError::AdapterUnavailable));
}

#[test]
fn an_adapter_without_formats_fails_the_session() {
    let mut session = Session::new();
    session.begin(true);
    session.advance(InitEvent::SurfaceCreated { width: 1280, height: 720 });
    assert_eq!(
        session.advance(InitEvent::AdapterFound { formats: 0 }),
        InitAction::Abort(InitError::AdapterUnavailable)
    );
    assert_eq!(session, Session::Failed(InitError::AdapterUnavailable));
}

#[test]
fn a_refused_device_fails_the_session() {
    let mut session = Session::new();
    session.begin(true);
    session.advance(InitEvent::SurfaceCreated { width: 1280, height: 720 });
    session.advance(InitEvent::AdapterFound { formats: 1 });
    assert_eq!(
        session.advance(InitEvent::DeviceRefused),
        InitAction::Abort(InitError::DeviceRequestFailed)
    );
    assert_eq!(session, Session::Failed(InitError::DeviceRequestFailed));
}

#[test]
fn an_answer_to_no_request_is_ignored() {
    let mut session = Session::new();
    assert_eq!(session.advance(InitEvent::DeviceGranted), InitAction::Nothing);
    assert_eq!(session, Session::Uninitialized);

    session.begin(true);
    let waiting = session;
    assert_eq!(session.advance(InitEvent::AdapterFound { formats: 1 }), InitAction::Nothing);
    assert_eq!(session.advance(InitEvent::DeviceGranted), InitAction::Nothing);
    assert_eq!(session.advance(InitEvent::DeviceRefused), InitAction::Nothing);
    assert_eq!(session.advance(InitEvent::AdapterMissing), InitAction::Nothing);
    assert_eq!(session, waiting);

    let mut done = ready(640, 480);
    let before = done;
    assert_eq!(done.advance(InitEvent::SurfaceFailed), InitAction::Nothing);
    assert_eq!(done.advance(InitEvent::DeviceRefused), InitAction::Nothing);
    assert_eq!(done, before);

    let mut failed = Session::Failed(InitError::AdapterUnavailable);
    assert_eq!(
        failed.advance(InitEvent::SurfaceCreated { width: 1, height: 1 }),
        InitAction::Nothing
    );
    assert_eq!(failed, Session::Failed(InitError::AdapterUnavailable));
}

#[test]
fn resize_of_a_ready_session_returns_the_new_configuration() {
    let mut session = ready(1280, 720);
    let apply = session.resize(640, 480);
    let config = SurfaceConfig { format: 0, width: 640, height: 480, vsync: true };
    assert_eq!(apply, Some(config));
    assert_eq!(session.config(), Some(config));
}

#[test]
fn resize_before_start_up_is_ignored() {
    let mut session = Session::new();
    assert_eq!(session.resize(640, 480), None);
    assert_eq!(session, Session::Uninitialized);

    session.begin(true);
    session.advance(InitEvent::SurfaceCreated { width: 1280, height: 720 });
    let waiting = session;
    assert_eq!(session.resize(640, 480), None);
    assert_eq!(session, waiting);
    session.advance(InitEvent::AdapterFound { formats: 1 });
    session.advance(InitEvent::DeviceGranted);
    assert_eq!(
        session.config(),
        Some(SurfaceConfig { format: 0, width: 1280, height: 720, vsync: true })
    );
}

#[test]
fn starting_anew_drops_what_was_there() {
    let mut session = ready(1280, 720);
    assert_eq!(session.begin(false), InitAction::CreateSurface);
    assert_eq!(session, Session::Initializing { stage: InitStage::Surface, passthrough: false });
    assert_eq!(session.config(), None);

    let mut failed = Session::Failed(InitError::DeviceRequestFailed);
    assert_eq!(failed.begin(true), InitAction::CreateSurface);
    assert_eq!(failed, Session::Initializing { stage: InitStage::Surface, passthrough: true });
}

#[test]
fn a_released_session_stays_released() {
    let mut session = ready(1280, 720);
    session.release();
    assert_eq!(session, Session::Released);
    assert!(!session.is_ready());
    assert_eq!(session.begin(true), InitAction::Nothing);
    assert_eq!(session, Session::Released);
    assert_eq!(session.resize(1, 1), None);
    assert_eq!(session.advance(InitEvent::DeviceGranted), InitAction::Nothing);
    assert_eq!(session, Session::Released);
}
