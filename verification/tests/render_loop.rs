use shadertoy_host::input::{Button, ElementState, InputEvent, Key, ScrollDelta};
use shadertoy_host::render_loop::{
    AcquireError, FollowUp, FrameOutcome, FramePlan, HostEvent, Reaction, RenderLoop,
};
use shadertoy_host::scalar::{Scalar, Vec4};
use shadertoy_host::session::{InitAction, InitError, InitEvent, Session, SurfaceConfig};

fn s(value: f32) -> Scalar {
    Scalar::from_bits(value.to_bits())
}

fn ready_host(width: u32, height: u32) -> RenderLoop {
    let mut host = RenderLoop::new();
    assert_eq!(host.begin_init(true), InitAction::CreateSurface);
    host.init_event(InitEvent::SurfaceCreated { width, height });
    host.init_event(InitEvent::AdapterFound { formats: 1 });
    host.init_event(InitEvent::DeviceGranted);
    assert!(host.session.is_ready());
    host
}

fn moved(x: f32, y: f32) -> HostEvent {
    HostEvent::Input(InputEvent::PointerMoved { x: s(x), y: s(y) })
}

fn left(state: ElementState) -> HostEvent {
    HostEvent::Input(InputEvent::PointerButton { button: Button::Left, state })
}

fn draw(host: &mut RenderLoop, time: f32) -> FramePlan {
    match host.render(Ok(()), s(time)) {
        FrameOutcome::Draw(plan) => plan,
        other => panic!("no frame: {:?}", other),
    }
}

#[test]
fn new_host_has_no_session_and_no_exit_asked() {
    let host = RenderLoop::new();
    assert_eq!(host.session, Session::Uninitialized);
    assert!(!host.close_requested);
    assert_eq!(host.about_to_wait(), FollowUp::Nothing);
}

#[test]
fn frame_draws_one_triangle_over_the_whole_surface() {
    let mut host = ready_host(1280, 720);
    host.window_event(moved(3.0, 4.0));
    let plan = draw(&mut host, 0.25);
    assert_eq!(plan.clear, Vec4 { x: s(0.0), y: s(0.0), z: s(0.0), w: s(1.0) });
    assert_eq!(plan.viewport_width, 1280);
    assert_eq!(plan.viewport_height, 720);
    assert_eq!(plan.vertices, 3);
    assert_eq!(plan.instances, 1);
    assert_eq!(plan.constants.surface_width, 1280);
    assert_eq!(plan.constants.surface_height, 720);
    assert_eq!(plan.constants.elapsed_time, s(0.25));
    assert_eq!((plan.constants.cursor_x, plan.constants.cursor_y), (s(3.0), s(4.0)));
    assert_eq!(plan.constants.mouse_left_pressed, 0);
    assert_eq!(plan.constants.mouse_left_clicked, 0);
}

#[test]
fn click_is_seen_by_exactly_one_frame() {
    let mut host = ready_host(1280, 720);
    host.window_event(left(ElementState::Pressed));
    assert_eq!(draw(&mut host, 0.1).constants.mouse_left_clicked, 1);
    assert_eq!(draw(&mut host, 0.2).constants.mouse_left_clicked, 0);
    host.window_event(moved(5.0, 5.0));
    host.window_event(left(ElementState::Released));
    host.window_event(HostEvent::SurfaceResized { width: 10, height: 10 });
    assert_eq!(host.render(Err(AcquireError::Timeout), s(0.3)), FrameOutcome::Skipped(AcquireError::Timeout));
    assert_eq!(draw(&mut host, 0.4).constants.mouse_left_clicked, 0);
    host.window_event(left(ElementState::Pressed));
    assert_eq!(draw(&mut host, 0.5).constants.mouse_left_clicked, 1);
    assert_eq!(draw(&mut host, 0.6).constants.mouse_left_clicked, 0);
}

#[test]
fn click_survives_a_dropped_frame() {
    let mut host = ready_host(1280, 720);
    host.window_event(left(ElementState::Pressed));
    assert_eq!(host.render(Err(AcquireError::Outdated), s(0.1)), FrameOutcome::Skipped(AcquireError::Outdated));
    assert!(host.input.mouse_left_clicked);
    assert_eq!(draw(&mut host, 0.2).constants.mouse_left_clicked, 1);
    assert_eq!(draw(&mut host, 0.3).constants.mouse_left_clicked, 0);
}

#[test]
fn resize_shows_in_the_next_frame() {
    let mut host = ready_host(1280, 720);
    let reaction = host.window_event(HostEvent::SurfaceResized { width: 1024, height: 768 });
    let config = SurfaceConfig { format: 0, width: 1024, height: 768, vsync: true };
    assert_eq!(
        reaction,
        Reaction { reconfigure: Some(config), acquire_frame: false, follow_up: FollowUp::RequestRedraw }
    );
    assert_eq!(host.render(Err(AcquireError::Lost), s(0.1)), FrameOutcome::Skipped(AcquireError::Lost));
    host.window_event(moved(1.0, 1.0));
    let plan = draw(&mut host, 0.2);
    assert_eq!((plan.constants.surface_width, plan.constants.surface_height), (1024, 768));
    assert_eq!((plan.viewport_width, plan.viewport_height), (1024, 768));
}

#[test]
fn two_resizes_before_a_frame_leave_the_last_size() {
    let mut host = ready_host(1280, 720);
    let first = host.window_event(HostEvent::SurfaceResized { width: 640, height: 480 });
    assert_eq!(
        first.reconfigure,
        Some(SurfaceConfig { format: 0, width: 640, height: 480, vsync: true })
    );
    let second = host.window_event(HostEvent::SurfaceResized { width: 800, height: 600 });
    assert_eq!(
        second.reconfigure,
        Some(SurfaceConfig { format: 0, width: 800, height: 600, vsync: true })
    );
    let plan = draw(&mut host, 0.0);
    assert_eq!(plan.constants.surface_width, 800);
    assert_eq!(plan.constants.surface_height, 600);
    assert_eq!(plan.viewport_width, 800);
    assert_eq!(plan.viewport_height, 600);
}

#[test]
fn resize_without_session_is_deferred() {
    let mut host = RenderLoop::new();
    let reaction = host.window_event(HostEvent::SurfaceResized { width: 640, height: 480 });
    assert_eq!(
        reaction,
        Reaction { reconfigure: None, acquire_frame: false, follow_up: FollowUp::Nothing }
    );
    assert_eq!(host, RenderLoop::new());
}

#[test]
fn failed_acquisition_changes_nothing_and_the_next_tick_tries_again() {
    let mut host = ready_host(1280, 720);
    host.window_event(moved(9.0, 9.0));
    let before = host;
    for error in [
        AcquireError::Timeout,
        AcquireError::Outdated,
        AcquireError::Lost,
        AcquireError::OutOfMemory,
    ] {
        let reaction = host.window_event(HostEvent::RedrawRequested);
        assert!(reaction.acquire_frame);
        assert_eq!(reaction.follow_up, FollowUp::RequestRedraw);
        assert_eq!(host.render(Err(error), s(1.0)), FrameOutcome::Skipped(error));
        assert_eq!(host, before);
        assert!(host.session.is_ready());
    }
    assert!(host.window_event(HostEvent::RedrawRequested).acquire_frame);
    let plan = draw(&mut host, 2.0);
    assert_eq!((plan.constants.cursor_x, plan.constants.cursor_y), (s(9.0), s(9.0)));
}

#[test]
fn render_without_session_is_not_ready() {
    let mut host = RenderLoop::new();
    assert_eq!(host.render(Ok(()), s(0.0)), FrameOutcome::NotReady);
    assert_eq!(host.render(Err(AcquireError::Lost), s(0.0)), FrameOutcome::NotReady);
    assert_eq!(host, RenderLoop::new());
    let reaction = host.window_event(HostEvent::RedrawRequested);
    assert!(!reaction.acquire_frame);
    assert_eq!(reaction.follow_up, FollowUp::Nothing);
}

#[test]
fn drag_gesture_end_to_end() {
    let mut host = ready_host(1280, 720);
    host.window_event(moved(10.0, 10.0));
    host.window_event(left(ElementState::Pressed));
    host.window_event(moved(50.0, 70.0));
    let held = draw(&mut host, 1.0).constants;
    assert_eq!((held.drag_start_x, held.drag_start_y), (s(10.0), s(10.0)));
    assert_eq!((held.drag_end_x, held.drag_end_y), (s(50.0), s(70.0)));
    assert_eq!(held.mouse_left_pressed, 1);
    host.window_event(left(ElementState::Released));
    let released = draw(&mut host, 1.1).constants;
    assert_eq!(released.mouse_left_pressed, 0);
    assert_eq!((released.drag_end_x, released.drag_end_y), (s(50.0), s(70.0)));
    assert_eq!((released.drag_start_x, released.drag_start_y), (s(10.0), s(10.0)));
}

#[test]
fn close_request_orders_the_exit() {
    let mut host = ready_host(1280, 720);
    assert_eq!(host.about_to_wait(), FollowUp::RequestRedraw);
    let reaction = host.window_event(HostEvent::CloseRequested);
    assert_eq!(
        reaction,
        Reaction { reconfigure: None, acquire_frame: false, follow_up: FollowUp::Exit }
    );
    assert!(host.close_requested);
    assert_eq!(host.about_to_wait(), FollowUp::Exit);
    assert_eq!(host.window_event(moved(1.0, 2.0)).follow_up, FollowUp::Exit);
    assert_eq!((host.input.cursor_x, host.input.cursor_y), (s(1.0), s(2.0)));
    let redraw = host.window_event(HostEvent::RedrawRequested);
    assert!(redraw.acquire_frame);
    assert_eq!(redraw.follow_up, FollowUp::Exit);
}

#[test]
fn escape_orders_the_exit() {
    let mut host = ready_host(1280, 720);
    let up = host.window_event(HostEvent::Input(InputEvent::KeyboardInput {
        key: Key::Escape,
        state: ElementState::Released,
    }));
    assert_eq!(up.follow_up, FollowUp::RequestRedraw);
    let other = host.window_event(HostEvent::Input(InputEvent::KeyboardInput {
        key: Key::Other,
        state: ElementState::Pressed,
    }));
    assert_eq!(other.follow_up, FollowUp::RequestRedraw);
    assert!(!host.close_requested);
    let down = host.window_event(HostEvent::Input(InputEvent::KeyboardInput {
        key: Key::Escape,
        state: ElementState::Pressed,
    }));
    assert_eq!(down.follow_up, FollowUp::Exit);
    assert!(host.close_requested);
    assert!(host.session.is_ready());
}

#[test]
fn other_events_only_keep_the_loop_turning() {
    let mut host = ready_host(1280, 720);
    let before = host;
    let reaction = host.window_event(HostEvent::Other);
    assert_eq!(
        reaction,
        Reaction { reconfigure: None, acquire_frame: false, follow_up: FollowUp::RequestRedraw }
    );
    assert_eq!(host, before);
}

#[test]
fn wheel_event_reaches_the_tracker() {
    let mut host = ready_host(1280, 720);
    host.window_event(HostEvent::Input(InputEvent::MouseWheel {
        delta: ScrollDelta::Lines { x: s(0.1), y: s(0.2) },
    }));
    let block = draw(&mut host, 0.0).constants;
    assert_eq!((block.drag_end_x, block.drag_end_y), (s(0.1), s(0.2)));
}

#[test]
fn failed_start_up_leaves_nothing_to_draw() {
    let mut host = RenderLoop::new();
    host.window_event(moved(7.0, 7.0));
    host.begin_init(false);
    assert_eq!(
        host.init_event(InitEvent::SurfaceFailed),
        InitAction::Abort(InitError::SurfaceCreationFailed)
    );
    assert_eq!(host.session, Session::Failed(InitError::SurfaceCreationFailed));
    assert_eq!((host.input.cursor_x, host.input.cursor_y), (s(7.0), s(7.0)));
    assert!(!host.close_requested);
    assert_eq!(host.about_to_wait(), FollowUp::Nothing);
    assert_eq!(host.render(Ok(()), s(0.0)), FrameOutcome::NotReady);
}

#[test]
fn exiting_releases_the_session() {
    let mut host = ready_host(1280, 720);
    host.window_event(moved(7.0, 7.0));
    host.window_event(HostEvent::CloseRequested);
    let input = host.input;
    host.exiting();
    assert_eq!(host.session, Session::Released);
    assert_eq!(host.input, input);
    assert!(host.close_requested);
    assert_eq!(host.render(Ok(()), s(0.0)), FrameOutcome::NotReady);
    assert_eq!(host.begin_init(true), InitAction::Nothing);
    assert_eq!(host.session, Session::Released);
}
