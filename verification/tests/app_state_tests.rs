use shader_layer::wayland_app::app_state::{AppAction, AppEvent, AppState};
use shader_layer::wayland_app::render_thread::RenderCommand;

fn render(elapsed: u64) -> AppAction {
    AppAction::Send { command: RenderCommand::Render { elapsed } }
}

fn configure(serial: u32, width: u32, height: u32, elapsed: u64) -> AppEvent {
    AppEvent::LayerSurfaceConfigure { serial, width, height, elapsed }
}

#[test]
fn new_state_runs_and_is_empty() {
    let s = AppState::new(true);
    assert!(s.is_running());
    assert_eq!(
        s,
        AppState {
            render_started: false,
            render_in_flight: false,
            closed: false,
            compositor: None,
            layer_shell: None,
            has_surface: true,
        }
    );
}

#[test]
fn first_configure_starts_renderer_and_requests_frame() {
    let mut s = AppState::new(true);
    let a = s.event(configure(7, 1920, 1080, 12));
    assert_eq!(
        a,
        vec![
            AppAction::AckConfigure { serial: 7 },
            AppAction::StartRenderThread { width: 1920, height: 1080 },
            render(12),
            AppAction::Send { command: RenderCommand::Resize { width: 1920, height: 1080 } },
            AppAction::RequestFrame,
            AppAction::Commit,
        ]
    );
    assert!(s.render_started);
    assert!(s.render_in_flight);
}

#[test]
fn second_configure_only_resizes() {
    let mut s = AppState::new(true);
    s.event(configure(1, 100, 100, 0));
    let a = s.event(configure(2, 200, 50, 99));
    assert_eq!(
        a,
        vec![
            AppAction::AckConfigure { serial: 2 },
            AppAction::Send { command: RenderCommand::Resize { width: 200, height: 50 } },
            AppAction::RequestFrame,
            AppAction::Commit,
        ]
    );
}

#[test]
fn configure_without_surface_only_acks() {
    let mut s = AppState::new(false);
    let a = s.event(configure(3, 10, 10, 0));
    assert_eq!(a, vec![AppAction::AckConfigure { serial: 3 }]);
    assert!(!s.render_started);
}

#[test]
fn frames_are_dropped_while_one_is_in_flight() {
    let mut s = AppState::new(true);
    s.event(configure(1, 100, 100, 0));
    // no completion seen: the frame request is dropped
    let a = s.event(AppEvent::FrameDone { completed: 0, elapsed: 16_000 });
    assert_eq!(a, vec![AppAction::RequestFrame, AppAction::Commit]);
    let a = s.event(AppEvent::FrameDone { completed: 0, elapsed: 32_000 });
    assert_eq!(a, vec![AppAction::RequestFrame, AppAction::Commit]);
    // a completion arrives: the next frame is requested
    let a = s.event(AppEvent::FrameDone { completed: 1, elapsed: 48_000 });
    assert_eq!(a, vec![AppAction::RequestFrame, AppAction::Commit, render(48_000)]);
    assert!(s.render_in_flight);
}

#[test]
fn several_completions_allow_one_frame() {
    let mut s = AppState::new(true);
    s.event(configure(1, 100, 100, 0));
    let a = s.event(AppEvent::FrameDone { completed: 3, elapsed: 5 });
    assert_eq!(a.iter().filter(|x| matches!(x, AppAction::Send { command: RenderCommand::Render { .. } })).count(), 1);
}

#[test]
fn frame_done_before_renderer_sends_nothing() {
    let mut s = AppState::new(true);
    let a = s.event(AppEvent::FrameDone { completed: 4, elapsed: 5 });
    assert_eq!(a, vec![AppAction::RequestFrame, AppAction::Commit]);
    assert!(!s.render_in_flight);
}

#[test]
fn frame_done_without_surface_does_not_schedule() {
    let mut s = AppState::new(false);
    let a = s.event(AppEvent::FrameDone { completed: 0, elapsed: 5 });
    assert!(a.is_empty());
}

#[test]
fn renderer_started_once() {
    let mut s = AppState::new(true);
    let mut starts = 0;
    for i in 0..5 {
        let a = s.event(configure(i, 100 + i, 100, i as u64));
        starts += a.iter().filter(|x| matches!(x, AppAction::StartRenderThread { .. })).count();
    }
    assert_eq!(starts, 1);
}

#[test]
fn close_sends_exit_and_stops_loop() {
    let mut s = AppState::new(true);
    s.event(configure(1, 100, 100, 0));
    let a = s.event(AppEvent::LayerSurfaceClosed);
    assert_eq!(a, vec![AppAction::Send { command: RenderCommand::Exit }]);
    assert!(!s.is_running());
    s.event(AppEvent::FrameDone { completed: 1, elapsed: 1 });
    assert!(!s.is_running());
}

#[test]
fn close_before_renderer_sends_nothing() {
    let mut s = AppState::new(true);
    let a = s.event(AppEvent::LayerSurfaceClosed);
    assert!(a.is_empty());
    assert!(!s.is_running());
}

#[test]
fn registry_binds_and_forgets() {
    let mut s = AppState::new(true);
    let a = s.event(AppEvent::RegistryGlobal { name: 3, interface: "wl_compositor".to_string(), version: 6 });
    assert_eq!(a, vec![AppAction::BindCompositor { name: 3, version: 6 }]);
    let a = s.event(AppEvent::RegistryGlobal { name: 9, interface: "zwlr_layer_shell_v1".to_string(), version: 4 });
    assert_eq!(a, vec![AppAction::BindLayerShell { name: 9, version: 4 }]);
    let a = s.event(AppEvent::RegistryGlobal { name: 11, interface: "wl_seat".to_string(), version: 7 });
    assert!(a.is_empty());
    assert_eq!(s.compositor, Some(3));
    assert_eq!(s.layer_shell, Some(9));
    let a = s.event(AppEvent::RegistryGlobalRemove { name: 5 });
    assert!(a.is_empty());
    let a = s.event(AppEvent::RegistryGlobalRemove { name: 9 });
    assert_eq!(a, vec![AppAction::ForgetLayerShell]);
    assert_eq!(s.layer_shell, None);
    let a = s.event(AppEvent::RegistryGlobalRemove { name: 3 });
    assert_eq!(a, vec![AppAction::ForgetCompositor]);
    assert_eq!(s.compositor, None);
}

#[test]
fn registry_remove_clears_both_when_names_match() {
    let mut s = AppState::new(true);
    s.compositor = Some(2);
    s.layer_shell = Some(2);
    let a = s.event(AppEvent::RegistryGlobalRemove { name: 2 });
    assert_eq!(a, vec![AppAction::ForgetCompositor, AppAction::ForgetLayerShell]);
}

#[test]
fn other_events_change_nothing() {
    let mut s = AppState::new(true);
    s.event(configure(1, 100, 100, 0));
    let before = s;
    assert!(s.event(AppEvent::Other).is_empty());
    assert_eq!(s, before);
}

#[test]
fn private_steps_directly() {
    let mut s = AppState::new(true);
    assert_eq!(s.try_request_render(0, 1), None);
    let a = s.ensure_render_thread_started(8, 9, 10);
    assert_eq!(a, vec![AppAction::StartRenderThread { width: 8, height: 9 }, render(10)]);
    assert!(s.ensure_render_thread_started(8, 9, 11).is_empty());
    assert_eq!(s.try_request_render(0, 12), None);
    s.drain_render_events(1);
    assert!(!s.render_in_flight);
    assert_eq!(s.try_request_render(0, 13), Some(RenderCommand::Render { elapsed: 13 }));
}

#[test]
fn requests_without_completion_send_once() {
    let mut s = AppState::new(true);
    s.render_started = true;
    let sent: Vec<_> = (0..5u64).map(|t| s.try_request_render(0, t)).collect();
    assert_eq!(sent, vec![Some(RenderCommand::Render { elapsed: 0 }), None, None, None, None]);
    assert!(s.render_in_flight);
}

#[test]
fn first_configure_after_other_events_starts_the_thread() {
    let mut s = AppState::new(true);
    let mut all = Vec::new();
    all.extend(s.event(AppEvent::FrameDone { completed: 0, elapsed: 1 }));
    all.extend(s.event(AppEvent::RegistryGlobal { name: 1, interface: "wl_compositor".to_string(), version: 4 }));
    assert!(!s.render_started);
    let first = s.event(configure(10, 300, 200, 2));
    assert_eq!(first[1], AppAction::StartRenderThread { width: 300, height: 200 });
    all.extend(first);
    all.extend(s.event(configure(11, 400, 200, 3)));
    all.extend(s.event(configure(12, 500, 250, 4)));
    let starts = all.iter().filter(|a| matches!(a, AppAction::StartRenderThread { .. })).count();
    assert_eq!(starts, 1);
    let resizes: Vec<(u32, u32)> = all
        .iter()
        .filter_map(|a| match a {
            AppAction::Send { command: RenderCommand::Resize { width, height } } => Some((*width, *height)),
            _ => None,
        })
        .collect();
    assert_eq!(resizes, vec![(300, 200), (400, 200), (500, 250)]);
}

#[test]
fn startup_event_allows_a_second_frame_in_flight() {
    let mut s = AppState::new(true);
    s.event(configure(1, 100, 100, 0)); // first Render sent
    // the render thread's start-up event is taken at the next callback
    let a = s.event(AppEvent::FrameDone { completed: 1, elapsed: 16 });
    assert_eq!(a.last(), Some(&render(16)));
    // without further answers nothing more is sent
    let a = s.event(AppEvent::FrameDone { completed: 0, elapsed: 32 });
    assert_eq!(a, vec![AppAction::RequestFrame, AppAction::Commit]);
}
