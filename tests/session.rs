use rustcraft::host::{after_render, App, FrameFollowUp, HostAction, HostEvent};
use rustcraft::input::{dispatch_key, Direction, Key, KeyCommand};
use rustcraft::surface::{State, SurfaceError, MAX_FRAME_LATENCY};

fn session() -> State {
    State::new(&vec![false, true], 1, 1, 800, 600).unwrap()
}

fn active_app(id: u64) -> App {
    let mut app = App::new();
    app.activate(id, session());
    app
}

#[test]
fn bound_keys_dispatch_on_press() {
    let s = session();
    assert_eq!(s.handle_key(Key::Escape, true), KeyCommand::Exit);
    assert_eq!(s.handle_key(Key::W, true), KeyCommand::Move(Direction::Forward));
    assert_eq!(s.handle_key(Key::A, true), KeyCommand::Move(Direction::Left));
    assert_eq!(s.handle_key(Key::S, true), KeyCommand::Move(Direction::Back));
    assert_eq!(s.handle_key(Key::D, true), KeyCommand::Move(Direction::Right));
    assert_eq!(s.handle_key(Key::F, true), KeyCommand::Interact);
}

#[test]
fn releases_have_no_effect() {
    for k in [Key::Escape, Key::W, Key::A, Key::S, Key::D, Key::F, Key::Other] {
        assert_eq!(dispatch_key(k, false), KeyCommand::Ignore);
    }
}

#[test]
fn unbound_key_has_no_effect() {
    let s = session();
    let before = s;
    assert_eq!(s.handle_key(Key::Other, true), KeyCommand::Ignore);
    assert_eq!(s.handle_key(Key::Other, false), KeyCommand::Ignore);
    assert_eq!(s, before);
}

#[test]
fn escape_exits_only_when_pressed() {
    let s = session();
    assert_eq!(s.handle_key(Key::Escape, true), KeyCommand::Exit);
    assert_ne!(s.handle_key(Key::Escape, false), KeyCommand::Exit);
}

#[test]
fn surface_prefers_first_srgb_format() {
    let s = State::new(&vec![false, false, true, true], 3, 2, 1024, 768).unwrap();
    assert_eq!(s.format, 2);
    assert_eq!(s.present_mode, 0);
    assert_eq!(s.alpha_mode, 0);
    assert_eq!(s.width, 1024);
    assert_eq!(s.height, 768);
    assert_eq!(s.max_frame_latency, 2);
    assert_eq!(MAX_FRAME_LATENCY, 2);
}

#[test]
fn surface_falls_back_to_first_format() {
    let s = State::new(&vec![false, false, false], 1, 1, 640, 480).unwrap();
    assert_eq!(s.format, 0);
    let t = State::new(&vec![true], 1, 1, 640, 480).unwrap();
    assert_eq!(t.format, 0);
}

#[test]
fn surface_needs_every_capability() {
    assert!(State::new(&vec![], 1, 1, 640, 480).is_none());
    assert!(State::new(&vec![true], 0, 1, 640, 480).is_none());
    assert!(State::new(&vec![true], 1, 0, 640, 480).is_none());
}

#[test]
fn activation_creates_one_window() {
    let mut app = App::new();
    let mut windows_created: u32 = 0;
    for id in [7u64, 9u64] {
        if app.on_activated() {
            windows_created += 1;
            app.activate(id, session());
        }
    }
    assert_eq!(windows_created, 1);
    assert_eq!(app.window, Some(7));
    assert!(app.state.is_some());
}

#[test]
fn second_activate_keeps_first_window() {
    let mut app = active_app(3);
    let before = app;
    app.activate(4, State::new(&vec![true], 1, 1, 1, 1).unwrap());
    assert_eq!(app, before);
}

#[test]
fn foreign_window_events_ignored() {
    let app = active_app(5);
    let before = app;
    let events = [
        HostEvent::CloseRequested,
        HostEvent::RedrawRequested,
        HostEvent::KeyboardInput { key: Some(Key::Escape), pressed: true },
        HostEvent::Other,
    ];
    for e in events {
        assert_eq!(app.window_event(6, e), HostAction::Ignore);
    }
    assert_eq!(app, before);
}

#[test]
fn events_before_activation_ignored() {
    let app = App::new();
    assert_eq!(app.window_event(0, HostEvent::CloseRequested), HostAction::Ignore);
}

#[test]
fn events_routed_for_own_window() {
    let app = active_app(5);
    assert_eq!(app.window_event(5, HostEvent::CloseRequested), HostAction::Exit);
    assert_eq!(app.window_event(5, HostEvent::RedrawRequested), HostAction::Render);
    assert_eq!(app.window_event(5, HostEvent::Other), HostAction::Ignore);
    assert_eq!(
        app.window_event(5, HostEvent::KeyboardInput { key: Some(Key::Escape), pressed: true }),
        HostAction::Key(KeyCommand::Exit)
    );
    assert_eq!(
        app.window_event(5, HostEvent::KeyboardInput { key: Some(Key::D), pressed: true }),
        HostAction::Key(KeyCommand::Move(Direction::Right))
    );
    assert_eq!(
        app.window_event(5, HostEvent::KeyboardInput { key: None, pressed: true }),
        HostAction::Ignore
    );
}

#[test]
fn surface_error_is_reported_and_redraw_requested() {
    assert_eq!(
        after_render(Err(SurfaceError::Lost)),
        FrameFollowUp { report: Some(SurfaceError::Lost), request_redraw: true }
    );
    for e in [SurfaceError::Timeout, SurfaceError::Outdated, SurfaceError::OutOfMemory, SurfaceError::Other] {
        let f = after_render(Err(e));
        assert_eq!(f.report, Some(e));
        assert!(f.request_redraw);
    }
}

#[test]
fn successful_frame_requests_redraw() {
    assert_eq!(after_render(Ok(())), FrameFollowUp { report: None, request_redraw: true });
}

#[test]
fn wgpu_formats_prefer_srgb() {
    let formats = vec![
        wgpu::TextureFormat::Rgba8Unorm,
        wgpu::TextureFormat::Bgra8UnormSrgb,
        wgpu::TextureFormat::Rgba8UnormSrgb,
    ];
    let s = State::from_formats(&formats, 2, 1, 320, 200).unwrap();
    assert_eq!(s.format, 1);
    assert_eq!((s.width, s.height, s.max_frame_latency), (320, 200, 2));
}

#[test]
fn wgpu_formats_without_srgb_take_first() {
    let formats = vec![wgpu::TextureFormat::Bgra8Unorm, wgpu::TextureFormat::Rgba16Float];
    assert_eq!(State::from_formats(&formats, 1, 1, 8, 8).unwrap().format, 0);
    assert!(State::from_formats(&Vec::new(), 1, 1, 8, 8).is_none());
}

#[test]
fn default_host_is_empty() {
    let app = App::default();
    assert_eq!(app, App::new());
    assert!(app.on_activated());
}
