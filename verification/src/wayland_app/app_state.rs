use vstd::prelude::*;

use crate::wayland_app::render_thread::{spec_render_decision, RenderCommand, RenderEvent};

verus! {

/// The state of the Wayland side of the application, as plain values.
///
/// The Wayland proxies, the channels to the render thread and the start
/// time stay with the caller; this state says which of them exist and what
/// the throttle knows.
#[derive(Debug, Clone, Copy, PartialEq, Eq, Structural)]
pub struct AppState {
    /// The render thread has been started (its command channel exists).
    pub render_started: bool,
    /// A `Render` command was sent and its `FrameComplete` not seen yet.
    pub render_in_flight: bool,
    /// The layer surface was closed by the compositor.
    pub closed: bool,
    /// Registry name of the bound `wl_compositor` global, if any.
    pub compositor: Option<u32>,
    /// Registry name of the bound `zwlr_layer_shell_v1` global, if any.
    pub layer_shell: Option<u32>,
    /// The caller holds the `wl_surface` that is drawn on.
    pub has_surface: bool,
}

/// An event from the compositor, with what the caller observed when it
/// arrived.
#[derive(Debug)]
pub enum AppEvent {
    /// `wl_registry.global`.
    RegistryGlobal { name: u32, interface: String, version: u32 },
    /// `wl_registry.global_remove`.
    RegistryGlobalRemove { name: u32 },
    /// `zwlr_layer_surface_v1.configure`; `elapsed` is the time since start
    /// in microseconds, used if this configure starts the renderer.
    LayerSurfaceConfigure { serial: u32, width: u32, height: u32, elapsed: u64 },
    /// `zwlr_layer_surface_v1.closed`.
    LayerSurfaceClosed,
    /// `wl_callback.done` of a frame callback; `completed` is the number of
    /// render events taken from the render thread's channel just now, and
    /// `elapsed` the time since start in microseconds.
    FrameDone { completed: usize, elapsed: u64 },
    /// Any other event (surface scale or transform hints, events of the
    /// compositor or layer-shell globals): nothing changes.
    Other,
}

/// Something the caller must do on the Wayland connection or with the
/// render thread, in the order given.
#[derive(Debug, Clone, Copy, PartialEq, Eq, Structural)]
pub enum AppAction {
    /// Bind global `name` as `wl_compositor` at `version` and keep it.
    BindCompositor { name: u32, version: u32 },
    /// Bind global `name` as `zwlr_layer_shell_v1` at `version` and keep it.
    BindLayerShell { name: u32, version: u32 },
    /// Drop the kept `wl_compositor`.
    ForgetCompositor,
    /// Drop the kept `zwlr_layer_shell_v1`.
    ForgetLayerShell,
    /// Acknowledge the layer surface's configure with this serial.
    AckConfigure { serial: u32 },
    /// Create the two channels and start the render thread at this size.
    StartRenderThread { width: u32, height: u32 },
    /// Send this command to the render thread (a failed send is ignored).
    Send { command: RenderCommand },
    /// Ask the surface for a frame callback.
    RequestFrame,
    /// Commit the surface.
    Commit,
}

/// Interface name of the compositor global.
pub open spec fn compositor_interface() -> Seq<char> {
    "wl_compositor"@
}

/// Interface name of the wlr layer-shell global.
pub open spec fn layer_shell_interface() -> Seq<char> {
    "zwlr_layer_shell_v1"@
}

/// The state after taking `received` render events off the channel: any
/// event marks the renderer idle; without a render thread nothing is read.
pub open spec fn spec_drain(s: AppState, received: usize) -> AppState {
    if s.render_started && received > 0 {
        AppState { render_in_flight: false, ..s }
    } else {
        s
    }
}

/// The throttled render request: drain, then send a `Render` for `elapsed`
/// only if the render thread exists and is idle.
pub open spec fn spec_request_render(s: AppState, received: usize, elapsed: u64) -> (
    AppState,
    Option<RenderCommand>,
) {
    let d = spec_drain(s, received);
    if !d.render_started || d.render_in_flight {
        (d, None)
    } else {
        (AppState { render_in_flight: true, ..d }, Some(RenderCommand::Render { elapsed }))
    }
}

/// The actions that send `command`, if there is one.
pub open spec fn send_all(command: Option<RenderCommand>) -> Seq<AppAction> {
    match command {
        Some(c) => seq![AppAction::Send { command: c }],
        None => seq![],
    }
}

/// Starting the render thread on first use, then a first render request.
/// Right after creating the channels the caller reads the new event
/// channel; that read is taken to find nothing (the render thread sends its
/// start-up event only once its EGL set-up is done), so the request depends
/// only on the throttle flag. The start-up event is counted by the next
/// frame callback that takes it off the channel.
pub open spec fn spec_ensure_started(s: AppState, width: u32, height: u32, elapsed: u64) -> (
    AppState,
    Seq<AppAction>,
) {
    if s.render_started {
        (s, seq![])
    } else {
        let s1 = AppState { render_started: true, ..s };
        let (s2, c) = spec_request_render(s1, 0, elapsed);
        (s2, seq![AppAction::StartRenderThread { width, height }] + send_all(c))
    }
}

/// The state and the actions after `event`.
pub open spec fn spec_event(s: AppState, event: AppEvent) -> (AppState, Seq<AppAction>) {
    match event {
        AppEvent::RegistryGlobal { name, interface, version } => {
            if interface@ == compositor_interface() {
                (
                    AppState { compositor: Some(name), ..s },
                    seq![AppAction::BindCompositor { name, version }],
                )
            } else if interface@ == layer_shell_interface() {
                (
                    AppState { layer_shell: Some(name), ..s },
                    seq![AppAction::BindLayerShell { name, version }],
                )
            } else {
                (s, seq![])
            }
        },
        AppEvent::RegistryGlobalRemove { name } => {
            let c = s.compositor == Some(name);
            let l = s.layer_shell == Some(name);
            (
                AppState {
                    compositor: if c { None } else { s.compositor },
                    layer_shell: if l { None } else { s.layer_shell },
                    ..s
                },
                (if c { seq![AppAction::ForgetCompositor] } else { seq![] }) + (if l {
                    seq![AppAction::ForgetLayerShell]
                } else {
                    seq![]
                }),
            )
        },
        AppEvent::LayerSurfaceConfigure { serial, width, height, elapsed } => {
            if !s.has_surface {
                (s, seq![AppAction::AckConfigure { serial }])
            } else {
                let (s1, started) = spec_ensure_started(s, width, height, elapsed);
                (
                    s1,
                    seq![AppAction::AckConfigure { serial }] + started + seq![
                        AppAction::Send { command: RenderCommand::Resize { width, height } },
                        AppAction::RequestFrame,
                        AppAction::Commit,
                    ],
                )
            }
        },
        AppEvent::LayerSurfaceClosed => (
            AppState { closed: true, ..s },
            if s.render_started {
                seq![AppAction::Send { command: RenderCommand::Exit }]
            } else {
                seq![]
            },
        ),
        AppEvent::FrameDone { completed, elapsed } => {
            let frame = if s.has_surface {
                seq![AppAction::RequestFrame, AppAction::Commit]
            } else {
                seq![]
            };
            let (s1, c) = spec_request_render(s, completed, elapsed);
            (s1, frame + send_all(c))
        },
        AppEvent::Other => (s, seq![]),
    }
}

/// The number of actions in `actions` for which `p` holds.
pub open spec fn count_matching(actions: Seq<AppAction>, p: spec_fn(AppAction) -> bool) -> nat
    decreases actions.len(),
{
    if actions.len() == 0 {
        0
    } else {
        (if p(actions[0]) { 1nat } else { 0nat }) + count_matching(actions.drop_first(), p)
    }
}

/// The action sends a `Render` command.
pub open spec fn is_render_send(a: AppAction) -> bool {
    a matches AppAction::Send { command: RenderCommand::Render { .. } }
}

/// The action starts the render thread.
pub open spec fn is_thread_start(a: AppAction) -> bool {
    a is StartRenderThread
}

/// The action sends some command to the render thread.
pub open spec fn is_send(a: AppAction) -> bool {
    a is Send
}

/// How many more `Render` commands the state allows before a completed
/// frame is observed: none while one is in flight, else one.
pub open spec fn render_budget(s: AppState) -> nat {
    if s.render_in_flight { 0 } else { 1 }
}

/// How many render-thread starts the state still allows.
pub open spec fn start_budget(s: AppState) -> nat {
    if s.render_started { 0 } else { 1 }
}

/// The event reports at least one completed frame.
pub open spec fn reports_completion(e: AppEvent) -> bool {
    e matches AppEvent::FrameDone { completed, .. } && completed > 0
}

/// The state and all actions after a sequence of events, in order.
pub open spec fn spec_run(s: AppState, events: Seq<AppEvent>) -> (AppState, Seq<AppAction>)
    decreases events.len(),
{
    if events.len() == 0 {
        (s, seq![])
    } else {
        let (s1, a1) = spec_event(s, events[0]);
        let (s2, a2) = spec_run(s1, events.drop_first());
        (s2, a1 + a2)
    }
}

/// The number of events in `events` that report a completed frame.
pub open spec fn count_completions(events: Seq<AppEvent>) -> nat
    decreases events.len(),
{
    if events.len() == 0 {
        0
    } else {
        (if reports_completion(events[0]) { 1nat } else { 0nat }) + count_completions(events.drop_first())
    }
}

proof fn lemma_count_add(a: Seq<AppAction>, b: Seq<AppAction>, p: spec_fn(AppAction) -> bool)
    ensures
        count_matching(a + b, p) == count_matching(a, p) + count_matching(b, p),
    decreases a.len(),
{
    if a.len() == 0 {
        assert(a + b =~= b);
    } else {
        assert((a + b).drop_first() =~= a.drop_first() + b);
        lemma_count_add(a.drop_first(), b, p);
    }
}

proof fn lemma_count_one(x: AppAction, p: spec_fn(AppAction) -> bool)
    ensures
        count_matching(seq![x], p) == (if p(x) { 1nat } else { 0nat }),
{
    assert(seq![x].drop_first() =~= Seq::<AppAction>::empty());
    assert(count_matching(Seq::<AppAction>::empty(), p) == 0);
    assert(seq![x][0] == x);
}

proof fn lemma_count_send_all(c: Option<RenderCommand>, p: spec_fn(AppAction) -> bool)
    ensures
        count_matching(send_all(c), p) == (match c {
            Some(cmd) => if p(AppAction::Send { command: cmd }) { 1nat } else { 0nat },
            None => 0nat,
        }),
{
    match c {
        Some(cmd) => lemma_count_one(AppAction::Send { command: cmd }, p),
        None => {},
    }
}

/// 1 if `p` holds of `x`, else 0.
pub open spec fn indicator(p: spec_fn(AppAction) -> bool, x: AppAction) -> nat {
    if p(x) { 1 } else { 0 }
}

/// `count_matching(spec_event(s, e).1, p)`, event by event.
pub open spec fn event_count(s: AppState, e: AppEvent, p: spec_fn(AppAction) -> bool) -> nat {
    match e {
        AppEvent::RegistryGlobal { name, interface, version } => {
            if interface@ == compositor_interface() {
                indicator(p, AppAction::BindCompositor { name, version })
            } else if interface@ == layer_shell_interface() {
                indicator(p, AppAction::BindLayerShell { name, version })
            } else {
                0
            }
        },
        AppEvent::RegistryGlobalRemove { name } => (if s.compositor == Some(name) {
            indicator(p, AppAction::ForgetCompositor)
        } else {
            0
        }) + (if s.layer_shell == Some(name) {
            indicator(p, AppAction::ForgetLayerShell)
        } else {
            0
        }),
        AppEvent::LayerSurfaceConfigure { serial, width, height, elapsed } => {
            indicator(p, AppAction::AckConfigure { serial }) + if !s.has_surface {
                0
            } else {
                (if s.render_started {
                    0
                } else {
                    indicator(p, AppAction::StartRenderThread { width, height }) + match spec_request_render(
                        AppState { render_started: true, ..s },
                        0,
                        elapsed,
                    ).1 {
                        Some(c) => indicator(p, AppAction::Send { command: c }),
                        None => 0,
                    }
                }) + indicator(p, AppAction::Send { command: RenderCommand::Resize { width, height } })
                    + indicator(p, AppAction::RequestFrame) + indicator(p, AppAction::Commit)
            }
        },
        AppEvent::LayerSurfaceClosed => if s.render_started {
            indicator(p, AppAction::Send { command: RenderCommand::Exit })
        } else {
            0
        },
        AppEvent::FrameDone { completed, elapsed } => (if s.has_surface {
            indicator(p, AppAction::RequestFrame) + indicator(p, AppAction::Commit)
        } else {
            0
        }) + match spec_request_render(s, completed, elapsed).1 {
            Some(c) => indicator(p, AppAction::Send { command: c }),
            None => 0,
        },
        AppEvent::Other => 0,
    }
}

proof fn lemma_event_count(s: AppState, e: AppEvent, p: spec_fn(AppAction) -> bool)
    ensures
        count_matching(spec_event(s, e).1, p) == event_count(s, e, p),
{
    assert(count_matching(Seq::<AppAction>::empty(), p) == 0);
    match e {
        AppEvent::RegistryGlobal { name, interface, version } => {
            if interface@ == compositor_interface() {
                lemma_count_one(AppAction::BindCompositor { name, version }, p);
            } else if interface@ == layer_shell_interface() {
                lemma_count_one(AppAction::BindLayerShell { name, version }, p);
            }
        },
        AppEvent::RegistryGlobalRemove { name } => {
            lemma_count_one(AppAction::ForgetCompositor, p);
            lemma_count_one(AppAction::ForgetLayerShell, p);
            let c = s.compositor == Some(name);
            let l = s.layer_shell == Some(name);
            lemma_count_add(
                if c { seq![AppAction::ForgetCompositor] } else { seq![] },
                if l { seq![AppAction::ForgetLayerShell] } else { seq![] },
                p,
            );
        },
        AppEvent::LayerSurfaceConfigure { serial, width, height, elapsed } => {
            lemma_count_one(AppAction::AckConfigure { serial }, p);
            if s.has_surface {
                let (s1, started) = spec_ensure_started(s, width, height, elapsed);
                let resize = AppAction::Send { command: RenderCommand::Resize { width, height } };
                let tail = seq![resize, AppAction::RequestFrame, AppAction::Commit];
                assert(tail =~= seq![resize] + seq![AppAction::RequestFrame] + seq![AppAction::Commit]);
                lemma_count_one(resize, p);
                lemma_count_one(AppAction::RequestFrame, p);
                lemma_count_one(AppAction::Commit, p);
                lemma_count_add(seq![resize], seq![AppAction::RequestFrame], p);
                lemma_count_add(seq![resize] + seq![AppAction::RequestFrame], seq![AppAction::Commit], p);
                lemma_count_add(seq![AppAction::AckConfigure { serial }], started, p);
                lemma_count_add(seq![AppAction::AckConfigure { serial }] + started, tail, p);
                if !s.render_started {
                    let s1 = AppState { render_started: true, ..s };
                    let (s2, c) = spec_request_render(s1, 0, elapsed);
                    lemma_count_one(AppAction::StartRenderThread { width, height }, p);
                    lemma_count_send_all(c, p);
                    lemma_count_add(seq![AppAction::StartRenderThread { width, height }], send_all(c), p);
                }
            }
        },
        AppEvent::LayerSurfaceClosed => {
            lemma_count_one(AppAction::Send { command: RenderCommand::Exit }, p);
        },
        AppEvent::FrameDone { completed, elapsed } => {
            let frame = if s.has_surface {
                seq![AppAction::RequestFrame, AppAction::Commit]
            } else {
                seq![]
            };
            assert(seq![AppAction::RequestFrame, AppAction::Commit] =~= seq![AppAction::RequestFrame] + seq![AppAction::Commit]);
            lemma_count_one(AppAction::RequestFrame, p);
            lemma_count_one(AppAction::Commit, p);
            lemma_count_add(seq![AppAction::RequestFrame], seq![AppAction::Commit], p);
            let (s1, c) = spec_request_render(s, completed, elapsed);
            lemma_count_send_all(c, p);
            lemma_count_add(frame, send_all(c), p);
        },
        AppEvent::Other => {},
    }
}

/// One event never sends more `Render` commands than the state allows plus
/// one per reported completion, and what it sends uses up the allowance:
/// a new frame is requested only once the previous one has completed.
pub proof fn lemma_render_throttle_step(s: AppState, e: AppEvent)
    ensures
        count_matching(spec_event(s, e).1, |a: AppAction| is_render_send(a)) + render_budget(
            spec_event(s, e).0,
        ) <= render_budget(s) + (if reports_completion(e) { 1nat } else { 0nat }),
{
    lemma_event_count(s, e, |a: AppAction| is_render_send(a));
}

/// One event starts the render thread at most once, and only while it has
/// not been started; afterwards it counts as started.
pub proof fn lemma_render_thread_start_step(s: AppState, e: AppEvent)
    ensures
        count_matching(spec_event(s, e).1, |a: AppAction| is_thread_start(a)) + start_budget(
            spec_event(s, e).0,
        ) <= start_budget(s),
        s.render_started ==> spec_event(s, e).0.render_started,
{
    lemma_event_count(s, e, |a: AppAction| is_thread_start(a));
}

/// Over any sequence of events the render thread is started at most once,
/// and never again once it runs.
pub proof fn lemma_render_thread_started_once(s: AppState, events: Seq<AppEvent>)
    ensures
        count_matching(spec_run(s, events).1, |a: AppAction| is_thread_start(a)) + start_budget(
            spec_run(s, events).0,
        ) <= start_budget(s),
    decreases events.len(),
{
    if events.len() > 0 {
        let (s1, a1) = spec_event(s, events[0]);
        lemma_render_thread_start_step(s, events[0]);
        lemma_render_thread_started_once(s1, events.drop_first());
        lemma_count_add(a1, spec_run(s1, events.drop_first()).1, |a: AppAction| is_thread_start(a));
    }
}

/// Over any sequence of events, the number of `Render` commands sent is at
/// most the starting allowance plus the number of events that reported a
/// completed frame: no two `Render` commands are sent without a reported
/// completion in between. Any event taken off the render thread's channel
/// counts as a completion, the start-up event included; what this means for
/// frames the renderer has not answered yet is `lemma_unanswered_frames`.
pub proof fn lemma_render_throttle(s: AppState, events: Seq<AppEvent>)
    ensures
        count_matching(spec_run(s, events).1, |a: AppAction| is_render_send(a)) + render_budget(
            spec_run(s, events).0,
        ) <= render_budget(s) + count_completions(events),
    decreases events.len(),
{
    if events.len() > 0 {
        let (s1, a1) = spec_event(s, events[0]);
        lemma_render_throttle_step(s, events[0]);
        lemma_render_throttle(s1, events.drop_first());
        lemma_count_add(a1, spec_run(s1, events.drop_first()).1, |a: AppAction| is_render_send(a));
    }
}

/// Within one event, every command for the render thread is sent only when
/// the thread already runs or after the action that starts it; and after
/// any send the thread counts as started.
pub proof fn lemma_sends_follow_start(s: AppState, e: AppEvent)
    ensures
        forall|i: int|
            0 <= i < spec_event(s, e).1.len() && is_send(#[trigger] spec_event(s, e).1[i]) ==> (
            s.render_started || exists|j: int| 0 <= j < i && is_thread_start(spec_event(s, e).1[j])),
        (exists|i: int| 0 <= i < spec_event(s, e).1.len() && is_send(#[trigger] spec_event(s, e).1[i]))
            ==> spec_event(s, e).0.render_started,
{
    let acts = spec_event(s, e).1;
    match e {
        AppEvent::LayerSurfaceConfigure { serial, width, height, elapsed } => {
            if s.has_surface && !s.render_started {
                assert(is_thread_start(acts[1]));
                assert forall|i: int| 0 <= i < acts.len() && is_send(#[trigger] acts[i]) implies (
                s.render_started || exists|j: int| 0 <= j < i && is_thread_start(acts[j])) by {
                    assert(i != 0 && i != 1);
                    assert(is_thread_start(acts[1]));
                }
            }
        },
        AppEvent::FrameDone { completed, elapsed } => {
            let frame = if s.has_surface {
                seq![AppAction::RequestFrame, AppAction::Commit]
            } else {
                seq![]
            };
            let (s1, c) = spec_request_render(s, completed, elapsed);
            assert forall|i: int| 0 <= i < acts.len() && is_send(#[trigger] acts[i]) implies s.render_started by {
                if i < frame.len() {
                    assert(acts[i] == frame[i]);
                } else {
                    assert(c is Some);
                }
            }
        },
        AppEvent::RegistryGlobalRemove { name } => {
            let c = s.compositor == Some(name);
            let l = s.layer_shell == Some(name);
            assert forall|i: int| 0 <= i < acts.len() implies !is_send(#[trigger] acts[i]) by {
                let a = if c { seq![AppAction::ForgetCompositor] } else { seq![] };
                if i < a.len() {
                    assert(acts[i] == a[i]);
                }
            }
        },
        _ => {},
    }
}

/// Once the layer surface is closed, the state stays closed and the event
/// loop stops for good.
pub proof fn lemma_closed_is_final(s: AppState, events: Seq<AppEvent>)
    requires
        s.closed,
    ensures
        spec_run(s, events).0.closed,
    decreases events.len(),
{
    if events.len() > 0 {
        lemma_closed_is_final(spec_event(s, events[0]).0, events.drop_first());
    }
}

/// `Exit` is sent to the render thread exactly when the layer surface is
/// closed while the render thread runs, and closing always ends the loop.
pub proof fn lemma_exit_on_close(s: AppState, e: AppEvent)
    ensures
        (e is LayerSurfaceClosed) ==> spec_event(s, e).0.closed,
        (exists|i: int|
            0 <= i < spec_event(s, e).1.len() && #[trigger] spec_event(s, e).1[i] == (AppAction::Send {
                command: RenderCommand::Exit,
            })) <==> (e is LayerSurfaceClosed && s.render_started),
{
    let acts = spec_event(s, e).1;
    let exit = AppAction::Send { command: RenderCommand::Exit };
    match e {
        AppEvent::LayerSurfaceClosed => {
            if s.render_started {
                assert(acts[0] == exit);
            }
        },
        AppEvent::LayerSurfaceConfigure { serial, width, height, elapsed } => {
            if s.has_surface {
                let (s1, started) = spec_ensure_started(s, width, height, elapsed);
                assert forall|i: int| 0 <= i < acts.len() implies acts[i] != exit by {
                    if 1 <= i < 1 + started.len() && !s.render_started {
                        let c = spec_request_render(AppState { render_started: true, ..s }, 0, elapsed).1;
                        assert(started == seq![AppAction::StartRenderThread { width, height }] + send_all(c));
                    }
                }
            }
        },
        AppEvent::FrameDone { completed, elapsed } => {
            let frame = if s.has_surface {
                seq![AppAction::RequestFrame, AppAction::Commit]
            } else {
                seq![]
            };
            assert forall|i: int| 0 <= i < acts.len() implies acts[i] != exit by {
                if i < frame.len() {
                    assert(acts[i] == frame[i]);
                }
            }
        },
        AppEvent::RegistryGlobalRemove { name } => {
            let c = s.compositor == Some(name);
            assert forall|i: int| 0 <= i < acts.len() implies acts[i] != exit by {
                let a = if c { seq![AppAction::ForgetCompositor] } else { seq![] };
                if i < a.len() {
                    assert(acts[i] == a[i]);
                }
            }
        },
        _ => {},
    }
}

/// A frame callback that reports a completed frame while the render thread
/// runs always ends with a `Render` command for the current time, and the
/// renderer is then busy: completed frames keep the animation going.
pub proof fn lemma_completion_resumes_rendering(s: AppState, completed: usize, elapsed: u64)
    requires
        s.render_started,
        completed > 0,
    ensures
        spec_event(s, AppEvent::FrameDone { completed, elapsed }).1.last() == (AppAction::Send {
            command: RenderCommand::Render { elapsed },
        }),
        spec_event(s, AppEvent::FrameDone { completed, elapsed }).0.render_in_flight,
{
}

/// Every frame callback on a surface first asks for the next callback and
/// commits, so frame callbacks keep coming while the surface exists.
pub proof fn lemma_frame_callbacks_continue(s: AppState, completed: usize, elapsed: u64)
    requires
        s.has_surface,
    ensures
        spec_event(s, AppEvent::FrameDone { completed, elapsed }).1.len() >= 2,
        spec_event(s, AppEvent::FrameDone { completed, elapsed }).1[0] == AppAction::RequestFrame,
        spec_event(s, AppEvent::FrameDone { completed, elapsed }).1[1] == AppAction::Commit,
{
}

/// Every configure is acknowledged first; on a surface it ends with the new
/// size sent to the render thread, a frame request and a commit.
pub proof fn lemma_configure_acknowledged(s: AppState, serial: u32, width: u32, height: u32, elapsed: u64)
    ensures
        spec_event(s, AppEvent::LayerSurfaceConfigure { serial, width, height, elapsed }).1[0]
            == (AppAction::AckConfigure { serial }),
        s.has_surface ==> {
            let acts = spec_event(s, AppEvent::LayerSurfaceConfigure { serial, width, height, elapsed }).1;
            &&& acts.len() >= 4
            &&& acts[acts.len() - 3] == (AppAction::Send { command: RenderCommand::Resize { width, height } })
            &&& acts[acts.len() - 2] == AppAction::RequestFrame
            &&& acts[acts.len() - 1] == AppAction::Commit
            &&& spec_event(s, AppEvent::LayerSurfaceConfigure { serial, width, height, elapsed }).0.render_started
        },
        !s.has_surface ==> spec_event(s, AppEvent::LayerSurfaceConfigure { serial, width, height, elapsed })
            == (s, seq![AppAction::AckConfigure { serial }]),
{
}

/// A global announced under a name and later removed under the same name
/// is bound and then forgotten; its slot is empty again.
pub proof fn lemma_global_added_then_removed(s: AppState, name: u32, interface: String, version: u32)
    requires
        interface@ == compositor_interface() || interface@ == layer_shell_interface(),
    ensures
        ({
            let (s1, a1) = spec_event(s, AppEvent::RegistryGlobal { name, interface, version });
            let (s2, a2) = spec_event(s1, AppEvent::RegistryGlobalRemove { name });
            &&& interface@ == compositor_interface() ==> a1 == seq![AppAction::BindCompositor { name, version }]
                && s2.compositor is None && a2.contains(AppAction::ForgetCompositor)
            &&& interface@ == layer_shell_interface() ==> a1 == seq![
                AppAction::BindLayerShell { name, version },
            ] && s2.layer_shell is None && a2.contains(AppAction::ForgetLayerShell)
        }),
{
    lemma_interface_names_differ();
    let (s1, a1) = spec_event(s, AppEvent::RegistryGlobal { name, interface, version });
    let a2 = spec_event(s1, AppEvent::RegistryGlobalRemove { name }).1;
    if interface@ == compositor_interface() {
        assert(a2[0] == AppAction::ForgetCompositor);
    } else {
        let c = s1.compositor == Some(name);
        let a = if c { seq![AppAction::ForgetCompositor] } else { seq![] };
        assert(a2[a.len() as int] == AppAction::ForgetLayerShell);
    }
}

/// Removing a global under a name that is not bound changes nothing.
pub proof fn lemma_remove_unknown_global(s: AppState, name: u32)
    requires
        s.compositor != Some(name),
        s.layer_shell != Some(name),
    ensures
        spec_event(s, AppEvent::RegistryGlobalRemove { name }).0 == s,
        spec_event(s, AppEvent::RegistryGlobalRemove { name }).1 == Seq::<AppAction>::empty(),
{
    assert(spec_event(s, AppEvent::RegistryGlobalRemove { name }).1 =~= Seq::<AppAction>::empty());
}

/// The round trip between the two threads: a render request made while the
/// renderer is idle is answered by the render thread with a completed frame
/// for the same time, and once that answer has been taken off the channel
/// the next frame callback requests the next frame.
pub proof fn lemma_render_round_trip(s: AppState, received: usize, first: u64, next: u64)
    requires
        s.render_started,
        !spec_drain(s, received).render_in_flight,
    ensures
        ({
            let (s1, command) = spec_request_render(s, received, first);
            &&& command == Some(RenderCommand::Render { elapsed: first })
            &&& s1.render_in_flight
            &&& spec_render_decision(command).reply == Some(RenderEvent::FrameComplete { elapsed: first })
            &&& spec_event(s1, AppEvent::FrameDone { completed: 1, elapsed: next }).1.last() == (AppAction::Send {
                command: RenderCommand::Render { elapsed: next },
            })
        }),
{
}

/// The two interface names the registry handler looks for are different,
/// so a global is bound as at most one of them.
pub proof fn lemma_interface_names_differ()
    ensures
        compositor_interface() != layer_shell_interface(),
        compositor_interface().len() == 13,
        layer_shell_interface().len() == 19,
{
    reveal_strlit("wl_compositor");
    reveal_strlit("zwlr_layer_shell_v1");
    assert(compositor_interface().len() != layer_shell_interface().len());
}

/// The total of the render events the frame callbacks in `events` took off
/// the render thread's channel.
pub open spec fn sum_completed(events: Seq<AppEvent>) -> nat
    decreases events.len(),
{
    if events.len() == 0 {
        0
    } else {
        (match events[0] {
            AppEvent::FrameDone { completed, .. } => completed as nat,
            _ => 0nat,
        }) + sum_completed(events.drop_first())
    }
}

proof fn lemma_completions_at_most_sum(events: Seq<AppEvent>)
    ensures
        count_completions(events) <= sum_completed(events),
    decreases events.len(),
{
    if events.len() > 0 {
        lemma_completions_at_most_sum(events.drop_first());
    }
}

/// Taken together with the render thread, which sends one start-up event
/// and then one `FrameComplete` per frame it draws: if, over a run, the
/// events taken off its channel are no more than the start-up event and the
/// answers to `answered` frames, then at most `answered + 2` `Render`
/// commands were sent. So at most two frames ever wait for the renderer at
/// once; the second is possible because the start-up event, taken off the
/// channel at the first frame callback, counts as a completion while the
/// first frame may still be drawn.
pub proof fn lemma_unanswered_frames(s: AppState, events: Seq<AppEvent>, answered: nat)
    requires
        sum_completed(events) <= 1 + answered,
    ensures
        count_matching(spec_run(s, events).1, |a: AppAction| is_render_send(a)) <= answered + 2,
{
    lemma_render_throttle(s, events);
    lemma_completions_at_most_sum(events);
}

/// The outcome of a sequence of render requests at the given times, with no
/// render event read in between.
pub open spec fn spec_request_run(s: AppState, times: Seq<u64>) -> (AppState, Seq<Option<RenderCommand>>)
    decreases times.len(),
{
    if times.len() == 0 {
        (s, seq![])
    } else {
        let (s1, c) = spec_request_render(s, 0, times[0]);
        let (s2, rest) = spec_request_run(s1, times.drop_first());
        (s2, seq![c] + rest)
    }
}

/// The number of requests in `commands` that sent something.
pub open spec fn count_sent(commands: Seq<Option<RenderCommand>>) -> nat
    decreases commands.len(),
{
    if commands.len() == 0 {
        0
    } else {
        (if commands[0] is Some { 1nat } else { 0nat }) + count_sent(commands.drop_first())
    }
}

/// While no render event arrives, a run of render requests sends at most
/// one `Render` command (none if one was already in flight, none without a
/// render thread): later requests are dropped while the renderer is busy.
/// If one was sent, a render is in flight afterwards; if the renderer was
/// idle and running, the first request is the one that sends.
pub proof fn lemma_requests_without_completion(s: AppState, times: Seq<u64>)
    ensures
        count_sent(spec_request_run(s, times).1) + render_budget(spec_request_run(s, times).0) <= render_budget(
            s,
        ),
        count_sent(spec_request_run(s, times).1) > 0 ==> spec_request_run(s, times).0.render_in_flight,
        s.render_started && !s.render_in_flight && times.len() > 0 ==> spec_request_run(s, times).1[0] == Some(
            RenderCommand::Render { elapsed: times[0] },
        ),
        spec_request_run(s, times).0.render_started == s.render_started,
    decreases times.len(),
{
    if times.len() > 0 {
        let (s1, c) = spec_request_render(s, 0, times[0]);
        lemma_requests_without_completion(s1, times.drop_first());
        let rest = spec_request_run(s1, times.drop_first()).1;
        assert((seq![c] + rest).drop_first() =~= rest);
        assert((seq![c] + rest)[0] == c);
    }
}

/// The surface size a configure event gives, in event order.
pub open spec fn configure_sizes(events: Seq<AppEvent>) -> Seq<(u32, u32)>
    decreases events.len(),
{
    if events.len() == 0 {
        seq![]
    } else {
        (match events[0] {
            AppEvent::LayerSurfaceConfigure { width, height, .. } => seq![(width, height)],
            _ => seq![],
        }) + configure_sizes(events.drop_first())
    }
}

/// The sizes sent to the render thread in `Resize` commands, in order.
pub open spec fn resize_sizes(actions: Seq<AppAction>) -> Seq<(u32, u32)>
    decreases actions.len(),
{
    if actions.len() == 0 {
        seq![]
    } else {
        (match actions[0] {
            AppAction::Send { command: RenderCommand::Resize { width, height } } => seq![(width, height)],
            _ => seq![],
        }) + resize_sizes(actions.drop_first())
    }
}

proof fn lemma_resize_sizes_add(a: Seq<AppAction>, b: Seq<AppAction>)
    ensures
        resize_sizes(a + b) == resize_sizes(a) + resize_sizes(b),
    decreases a.len(),
{
    if a.len() == 0 {
        assert(a + b =~= b);
        assert(resize_sizes(a) + resize_sizes(b) =~= resize_sizes(b));
    } else {
        assert((a + b).drop_first() =~= a.drop_first() + b);
        lemma_resize_sizes_add(a.drop_first(), b);
        assert(resize_sizes(a + b) =~= resize_sizes(a) + resize_sizes(b));
    }
}

proof fn lemma_resize_sizes_one(x: AppAction)
    ensures
        resize_sizes(seq![x]) == (match x {
            AppAction::Send { command: RenderCommand::Resize { width, height } } => seq![(width, height)],
            _ => Seq::<(u32, u32)>::empty(),
        }),
{
    assert(seq![x].drop_first() =~= Seq::<AppAction>::empty());
    assert(resize_sizes(Seq::<AppAction>::empty()) == Seq::<(u32, u32)>::empty());
    assert(seq![x][0] == x);
    assert(resize_sizes(seq![x]) =~= (match x {
        AppAction::Send { command: RenderCommand::Resize { width, height } } => seq![(width, height)],
        _ => Seq::<(u32, u32)>::empty(),
    }));
}

proof fn lemma_resize_sizes_send_all(c: Option<RenderCommand>)
    requires
        c is None || c->0 is Render,
    ensures
        resize_sizes(send_all(c)) == Seq::<(u32, u32)>::empty(),
{
    assert(resize_sizes(Seq::<AppAction>::empty()) == Seq::<(u32, u32)>::empty());
    if let Some(cmd) = c {
        lemma_resize_sizes_one(AppAction::Send { command: cmd });
    }
}

/// One event sends a `Resize` exactly when it is a configure on a surface,
/// with the configured size; no event changes whether there is a surface.
pub proof fn lemma_event_resizes(s: AppState, e: AppEvent)
    ensures
        resize_sizes(spec_event(s, e).1) == (if s.has_surface { configure_sizes(seq![e]) } else { seq![] }),
        spec_event(s, e).0.has_surface == s.has_surface,
{
    let acts = spec_event(s, e).1;
    assert(seq![e].drop_first() =~= Seq::<AppEvent>::empty());
    assert(seq![e][0] == e);
    assert(configure_sizes(Seq::<AppEvent>::empty()) == Seq::<(u32, u32)>::empty());
    assert(resize_sizes(Seq::<AppAction>::empty()) == Seq::<(u32, u32)>::empty());
    match e {
        AppEvent::RegistryGlobal { name, interface, version } => {
            lemma_resize_sizes_one(AppAction::BindCompositor { name, version });
            lemma_resize_sizes_one(AppAction::BindLayerShell { name, version });
        },
        AppEvent::RegistryGlobalRemove { name } => {
            let c = s.compositor == Some(name);
            let l = s.layer_shell == Some(name);
            lemma_resize_sizes_one(AppAction::ForgetCompositor);
            lemma_resize_sizes_one(AppAction::ForgetLayerShell);
            lemma_resize_sizes_add(
                if c { seq![AppAction::ForgetCompositor] } else { seq![] },
                if l { seq![AppAction::ForgetLayerShell] } else { seq![] },
            );
            assert(resize_sizes(acts) =~= Seq::<(u32, u32)>::empty());
        },
        AppEvent::LayerSurfaceConfigure { serial, width, height, elapsed } => {
            lemma_resize_sizes_one(AppAction::AckConfigure { serial });
            assert(configure_sizes(seq![e]) =~= seq![(width, height)]);
            if s.has_surface {
                let (s1, started) = spec_ensure_started(s, width, height, elapsed);
                let resize = AppAction::Send { command: RenderCommand::Resize { width, height } };
                let tail = seq![resize, AppAction::RequestFrame, AppAction::Commit];
                assert(tail =~= seq![resize] + (seq![AppAction::RequestFrame] + seq![AppAction::Commit]));
                lemma_resize_sizes_one(resize);
                lemma_resize_sizes_one(AppAction::RequestFrame);
                lemma_resize_sizes_one(AppAction::Commit);
                lemma_resize_sizes_add(seq![AppAction::RequestFrame], seq![AppAction::Commit]);
                lemma_resize_sizes_add(seq![resize], seq![AppAction::RequestFrame] + seq![AppAction::Commit]);
                if !s.render_started {
                    let c = spec_request_render(AppState { render_started: true, ..s }, 0, elapsed).1;
                    lemma_resize_sizes_one(AppAction::StartRenderThread { width, height });
                    lemma_resize_sizes_send_all(c);
                    lemma_resize_sizes_add(seq![AppAction::StartRenderThread { width, height }], send_all(c));
                }
                lemma_resize_sizes_add(seq![AppAction::AckConfigure { serial }], started);
                lemma_resize_sizes_add(seq![AppAction::AckConfigure { serial }] + started, tail);
                assert(resize_sizes(acts) =~= seq![(width, height)]);
            }
        },
        AppEvent::LayerSurfaceClosed => {
            lemma_resize_sizes_one(AppAction::Send { command: RenderCommand::Exit });
        },
        AppEvent::FrameDone { completed, elapsed } => {
            let frame = if s.has_surface {
                seq![AppAction::RequestFrame, AppAction::Commit]
            } else {
                seq![]
            };
            assert(seq![AppAction::RequestFrame, AppAction::Commit] =~= seq![AppAction::RequestFrame] + seq![AppAction::Commit]);
            lemma_resize_sizes_one(AppAction::RequestFrame);
            lemma_resize_sizes_one(AppAction::Commit);
            lemma_resize_sizes_add(seq![AppAction::RequestFrame], seq![AppAction::Commit]);
            let c = spec_request_render(s, completed, elapsed).1;
            lemma_resize_sizes_send_all(c);
            lemma_resize_sizes_add(frame, send_all(c));
            assert(resize_sizes(acts) =~= Seq::<(u32, u32)>::empty());
        },
        AppEvent::Other => {},
    }
}

/// On a surface, every configure sends its size to the render thread, in
/// event order, and nothing else sends a size: the `Resize` commands of a
/// run are exactly the configured sizes.
pub proof fn lemma_every_configure_resizes(s: AppState, events: Seq<AppEvent>)
    requires
        s.has_surface,
    ensures
        resize_sizes(spec_run(s, events).1) == configure_sizes(events),
    decreases events.len(),
{
    if events.len() > 0 {
        let e = events[0];
        let (s1, a1) = spec_event(s, e);
        lemma_event_resizes(s, e);
        lemma_every_configure_resizes(s1, events.drop_first());
        lemma_resize_sizes_add(a1, spec_run(s1, events.drop_first()).1);
        assert(configure_sizes(seq![e]) + configure_sizes(events.drop_first()) =~= configure_sizes(events)) by {
            assert(seq![e].drop_first() =~= Seq::<AppEvent>::empty());
            assert(configure_sizes(Seq::<AppEvent>::empty()) == Seq::<(u32, u32)>::empty());
            assert(seq![e][0] == e);
        }
    }
}

/// `events` holds a configure of the layer surface.
pub open spec fn has_configure(events: Seq<AppEvent>) -> bool {
    exists|i: int| 0 <= i < events.len() && #[trigger] events[i] is LayerSurfaceConfigure
}

/// An event other than a configure leaves it unchanged whether the render
/// thread runs and whether there is a surface.
proof fn lemma_non_configure_keeps_start(s: AppState, e: AppEvent)
    requires
        !(e is LayerSurfaceConfigure),
    ensures
        spec_event(s, e).0.render_started == s.render_started,
        spec_event(s, e).0.has_surface == s.has_surface,
{
}

proof fn lemma_has_configure_rest(events: Seq<AppEvent>)
    requires
        events.len() > 0,
        !(events[0] is LayerSurfaceConfigure),
    ensures
        has_configure(events) <==> has_configure(events.drop_first()),
{
    let rest = events.drop_first();
    if has_configure(events) {
        let i = choose|i: int| 0 <= i < events.len() && #[trigger] events[i] is LayerSurfaceConfigure;
        assert(rest[i - 1] is LayerSurfaceConfigure);
    }
    if has_configure(rest) {
        let i = choose|i: int| 0 <= i < rest.len() && #[trigger] rest[i] is LayerSurfaceConfigure;
        assert(events[i + 1] is LayerSurfaceConfigure);
    }
}

/// On a surface whose render thread has not been started, a run starts it
/// exactly once if it holds a configure and never otherwise; it runs at
/// the end exactly in that case.
pub proof fn lemma_render_thread_started_exactly_once(s: AppState, events: Seq<AppEvent>)
    requires
        s.has_surface,
        !s.render_started,
    ensures
        count_matching(spec_run(s, events).1, |a: AppAction| is_thread_start(a)) == (if has_configure(events) {
            1nat
        } else {
            0nat
        }),
        has_configure(events) <==> spec_run(s, events).0.render_started,
    decreases events.len(),
{
    let p = |a: AppAction| is_thread_start(a);
    if events.len() == 0 {
        assert(!has_configure(events));
    } else {
        let e = events[0];
        let rest = events.drop_first();
        let (s1, a1) = spec_event(s, e);
        lemma_event_count(s, e, p);
        lemma_count_add(a1, spec_run(s1, rest).1, p);
        if e is LayerSurfaceConfigure {
            assert(has_configure(events)) by {
                assert(events[0] is LayerSurfaceConfigure);
            }
            lemma_render_thread_started_once(s1, rest);
            lemma_started_stays(s1, rest);
        } else {
            lemma_non_configure_keeps_start(s, e);
            lemma_render_thread_started_exactly_once(s1, rest);
            lemma_has_configure_rest(events);
        }
    }
}

/// The first configure of a run starts the render thread, at its own size:
/// before it nothing has started the thread, and its second action (after
/// the acknowledgement) is the start.
pub proof fn lemma_first_configure_starts(s: AppState, events: Seq<AppEvent>, k: int)
    requires
        s.has_surface,
        !s.render_started,
        0 <= k < events.len(),
        events[k] is LayerSurfaceConfigure,
        forall|j: int| 0 <= j < k ==> !(#[trigger] events[j] is LayerSurfaceConfigure),
    ensures
        !spec_run(s, events.take(k)).0.render_started,
        spec_run(s, events.take(k)).0.has_surface,
        spec_event(spec_run(s, events.take(k)).0, events[k]).1[1] == (AppAction::StartRenderThread {
            width: events[k]->LayerSurfaceConfigure_width,
            height: events[k]->LayerSurfaceConfigure_height,
        }),
    decreases k,
{
    if k == 0 {
        assert(events.take(0) =~= Seq::<AppEvent>::empty());
    } else {
        let e = events[0];
        let rest = events.drop_first();
        assert(!(e is LayerSurfaceConfigure));
        lemma_non_configure_keeps_start(s, e);
        let s1 = spec_event(s, e).0;
        assert forall|j: int| 0 <= j < k - 1 implies !(#[trigger] rest[j] is LayerSurfaceConfigure) by {
            assert(rest[j] == events[j + 1]);
        }
        assert(rest[k - 1] == events[k]);
        lemma_first_configure_starts(s1, rest, k - 1);
        assert(events.take(k).drop_first() =~= rest.take(k - 1));
        assert(events.take(k)[0] == e);
    }
}

/// Once the render thread runs, it counts as running for the rest of any
/// run.
pub proof fn lemma_started_stays(s: AppState, events: Seq<AppEvent>)
    requires
        s.render_started,
    ensures
        spec_run(s, events).0.render_started,
    decreases events.len(),
{
    if events.len() > 0 {
        lemma_render_thread_start_step(s, events[0]);
        lemma_started_stays(spec_event(s, events[0]).0, events.drop_first());
    }
}

/// Reading render events off the channel: if the render thread runs and at
/// least one event was read, the renderer is idle afterwards; nothing else
/// changes.
pub proof fn lemma_drain_law(s: AppState, received: usize)
    ensures
        spec_drain(s, received) == (AppState {
            render_in_flight: s.render_in_flight && !(s.render_started && received > 0),
            ..s
        }),
{
}

/// A render request sends `Render { elapsed }` exactly when the render
/// thread runs and is idle after the read events are taken into account;
/// then a frame is in flight. Otherwise nothing is sent and only the read
/// events can clear the in-flight flag.
pub proof fn lemma_request_render_law(s: AppState, received: usize, elapsed: u64)
    ensures
        ({
            let idle = !s.render_in_flight || (s.render_started && received > 0);
            let sends = s.render_started && idle;
            &&& spec_request_render(s, received, elapsed).1 == (if sends {
                Some(RenderCommand::Render { elapsed })
            } else {
                None
            })
            &&& spec_request_render(s, received, elapsed).0 == (AppState {
                render_in_flight: if sends { true } else { s.render_in_flight && !(s.render_started && received > 0) },
                ..s
            })
        }),
{
}

/// Starting the render thread from a state without one: the thread is
/// started at the given size and, if no frame is in flight, the first frame
/// is requested right after, for the given time. With a render thread
/// already running nothing happens.
pub proof fn lemma_ensure_started_law(s: AppState, width: u32, height: u32, elapsed: u64)
    ensures
        !s.render_started && !s.render_in_flight ==> spec_ensure_started(s, width, height, elapsed) == (
            AppState { render_started: true, render_in_flight: true, ..s },
            seq![
                AppAction::StartRenderThread { width, height },
                AppAction::Send { command: RenderCommand::Render { elapsed } },
            ],
        ),
        !s.render_started && s.render_in_flight ==> spec_ensure_started(s, width, height, elapsed) == (
            AppState { render_started: true, ..s },
            seq![AppAction::StartRenderThread { width, height }],
        ),
        s.render_started ==> spec_ensure_started(s, width, height, elapsed) == (s, Seq::<AppAction>::empty()),
{
    assert(seq![AppAction::StartRenderThread { width, height }] + seq![
        AppAction::Send { command: RenderCommand::Render { elapsed } },
    ] =~= seq![
        AppAction::StartRenderThread { width, height },
        AppAction::Send { command: RenderCommand::Render { elapsed } },
    ]);
    assert(seq![AppAction::StartRenderThread { width, height }] + Seq::<AppAction>::empty() =~= seq![
        AppAction::StartRenderThread { width, height },
    ]);
}

/// A configure of the layer surface, in full. It is always acknowledged.
/// Without a surface nothing else happens. On a surface: the first
/// configure starts the render thread at the configured size and, from an
/// idle state, requests the first frame for the given time; every configure
/// then sends the configured size to the render thread, asks for a frame
/// callback and commits.
pub proof fn lemma_configure_law(s: AppState, serial: u32, width: u32, height: u32, elapsed: u64)
    ensures
        ({
            let (s1, acts) = spec_event(s, AppEvent::LayerSurfaceConfigure { serial, width, height, elapsed });
            let ack = AppAction::AckConfigure { serial };
            let start = AppAction::StartRenderThread { width, height };
            let render = AppAction::Send { command: RenderCommand::Render { elapsed } };
            let resize = AppAction::Send { command: RenderCommand::Resize { width, height } };
            &&& !s.has_surface ==> s1 == s && acts == seq![ack]
            &&& s.has_surface && !s.render_started && !s.render_in_flight ==> s1 == (AppState {
                render_started: true,
                render_in_flight: true,
                ..s
            }) && acts == seq![ack, start, render, resize, AppAction::RequestFrame, AppAction::Commit]
            &&& s.has_surface && !s.render_started && s.render_in_flight ==> s1 == (AppState {
                render_started: true,
                ..s
            }) && acts == seq![ack, start, resize, AppAction::RequestFrame, AppAction::Commit]
            &&& s.has_surface && s.render_started ==> s1 == s && acts == seq![
                ack,
                resize,
                AppAction::RequestFrame,
                AppAction::Commit,
            ]
        }),
{
    lemma_ensure_started_law(s, width, height, elapsed);
    let ack = AppAction::AckConfigure { serial };
    let start = AppAction::StartRenderThread { width, height };
    let render = AppAction::Send { command: RenderCommand::Render { elapsed } };
    let resize = AppAction::Send { command: RenderCommand::Resize { width, height } };
    let tail = seq![resize, AppAction::RequestFrame, AppAction::Commit];
    assert(seq![ack] + seq![start, render] + tail =~= seq![ack, start, render, resize, AppAction::RequestFrame, AppAction::Commit]);
    assert(seq![ack] + seq![start] + tail =~= seq![ack, start, resize, AppAction::RequestFrame, AppAction::Commit]);
    assert(seq![ack] + Seq::<AppAction>::empty() + tail =~= seq![ack, resize, AppAction::RequestFrame, AppAction::Commit]);
}

/// A frame callback, in full: on a surface it asks for exactly one next
/// frame callback and commits; then it sends `Render { elapsed }` exactly
/// when the render thread runs and is idle once the `completed` events are
/// counted, which leaves a frame in flight. Nothing else is done or changed.
pub proof fn lemma_frame_done_law(s: AppState, completed: usize, elapsed: u64)
    ensures
        ({
            let (s1, acts) = spec_event(s, AppEvent::FrameDone { completed, elapsed });
            let frame = if s.has_surface {
                seq![AppAction::RequestFrame, AppAction::Commit]
            } else {
                Seq::<AppAction>::empty()
            };
            let idle = !s.render_in_flight || (s.render_started && completed > 0);
            let sends = s.render_started && idle;
            &&& acts == frame + (if sends {
                seq![AppAction::Send { command: RenderCommand::Render { elapsed } }]
            } else {
                Seq::<AppAction>::empty()
            })
            &&& s1 == (AppState {
                render_in_flight: if sends { true } else { s.render_in_flight && !(s.render_started && completed > 0) },
                ..s
            })
            &&& count_matching(acts, |a: AppAction| a == AppAction::RequestFrame) == (if s.has_surface {
                1nat
            } else {
                0nat
            })
        }),
{
    lemma_request_render_law(s, completed, elapsed);
    let p = |a: AppAction| a == AppAction::RequestFrame;
    lemma_event_count(s, AppEvent::FrameDone { completed, elapsed }, p);
}

/// The registry, in full. A global announced as `wl_compositor` is bound as
/// the compositor under its name and version; one announced as
/// `zwlr_layer_shell_v1` is bound as the layer shell; any other interface
/// is ignored: no action, no change.
pub proof fn lemma_registry_global_law(s: AppState, name: u32, interface: String, version: u32)
    ensures
        ({
            let r = spec_event(s, AppEvent::RegistryGlobal { name, interface, version });
            &&& interface@ == "wl_compositor"@ ==> r == (
                AppState { compositor: Some(name), ..s },
                seq![AppAction::BindCompositor { name, version }],
            )
            &&& interface@ == "zwlr_layer_shell_v1"@ ==> r == (
                AppState { layer_shell: Some(name), ..s },
                seq![AppAction::BindLayerShell { name, version }],
            )
            &&& interface@ != "wl_compositor"@ && interface@ != "zwlr_layer_shell_v1"@ ==> r == (
                s,
                Seq::<AppAction>::empty(),
            )
        }),
{
    lemma_interface_names_differ();
}

/// Removing a global: a bound compositor or layer shell registered under
/// that name is forgotten (compositor first), anything else is kept.
pub proof fn lemma_registry_remove_law(s: AppState, name: u32)
    ensures
        ({
            let (s1, acts) = spec_event(s, AppEvent::RegistryGlobalRemove { name });
            let c = s.compositor == Some(name);
            let l = s.layer_shell == Some(name);
            &&& s1 == (AppState {
                compositor: if c { None } else { s.compositor },
                layer_shell: if l { None } else { s.layer_shell },
                ..s
            })
            &&& acts == (if c && l {
                seq![AppAction::ForgetCompositor, AppAction::ForgetLayerShell]
            } else if c {
                seq![AppAction::ForgetCompositor]
            } else if l {
                seq![AppAction::ForgetLayerShell]
            } else {
                Seq::<AppAction>::empty()
            })
        }),
{
    let c = s.compositor == Some(name);
    let l = s.layer_shell == Some(name);
    assert(seq![AppAction::ForgetCompositor] + seq![AppAction::ForgetLayerShell] =~= seq![
        AppAction::ForgetCompositor,
        AppAction::ForgetLayerShell,
    ]);
    assert(seq![AppAction::ForgetCompositor] + Seq::<AppAction>::empty() =~= seq![AppAction::ForgetCompositor]);
    assert(Seq::<AppAction>::empty() + seq![AppAction::ForgetLayerShell] =~= seq![AppAction::ForgetLayerShell]);
    assert(Seq::<AppAction>::empty() + Seq::<AppAction>::empty() =~= Seq::<AppAction>::empty());
}

/// Closing the layer surface marks the state closed and, if the render
/// thread runs, tells it to exit; other events leave everything as it is.
pub proof fn lemma_close_and_other_law(s: AppState)
    ensures
        spec_event(s, AppEvent::LayerSurfaceClosed) == (
            AppState { closed: true, ..s },
            if s.render_started {
                seq![AppAction::Send { command: RenderCommand::Exit }]
            } else {
                Seq::<AppAction>::empty()
            },
        ),
        spec_event(s, AppEvent::Other) == (s, Seq::<AppAction>::empty()),
{
}

impl AppState {
    /// A state before any event: no globals, no render thread, not closed.
    /// `has_surface` says whether the caller already holds the surface.
    pub fn new(has_surface: bool) -> (s: AppState)
        ensures
            s == (AppState {
                render_started: false,
                render_in_flight: false,
                closed: false,
                compositor: None,
                layer_shell: None,
                has_surface,
            }),
    {
        AppState {
            render_started: false,
            render_in_flight: false,
            closed: false,
            compositor: None,
            layer_shell: None,
            has_surface,
        }
    }

    /// The event loop goes on until the layer surface is closed.
    pub fn is_running(&self) -> (running: bool)
        ensures
            running == !self.closed,
    {
        !self.closed
    }

    /// Takes note of `received` render events read off the render thread's
    /// channel: any of them means the renderer is idle again.
    pub fn drain_render_events(&mut self, received: usize)
        ensures
            *final(self) == spec_drain(*old(self), received),
    {
        if self.render_started && received > 0 {
            self.render_in_flight = false;
        }
    }

    /// Asks for a frame unless the renderer is busy: the request is dropped
    /// while a frame is in flight or before the render thread exists.
    /// Returns the command to send.
    pub fn try_request_render(&mut self, received: usize, elapsed: u64) -> (command: Option<RenderCommand>)
        ensures
            (*final(self), command) == spec_request_render(*old(self), received, elapsed),
    {
        self.drain_render_events(received);
        if !self.render_started {
            return None;
        }
        if self.render_in_flight {
            return None;
        }
        self.render_in_flight = true;
        Some(RenderCommand::Render { elapsed })
    }

    /// Starts the render thread at the given size unless it runs already,
    /// then makes the first (throttled) render request.
    pub fn ensure_render_thread_started(&mut self, width: u32, height: u32, elapsed: u64) -> (actions: Vec<AppAction>)
        ensures
            (*final(self), actions@) == spec_ensure_started(*old(self), width, height, elapsed),
    {
        let mut actions: Vec<AppAction> = Vec::new();
        if self.render_started {
            return actions;
        }
        self.render_started = true;
        actions.push(AppAction::StartRenderThread { width, height });
        match self.try_request_render(0, elapsed) {
            Some(command) => actions.push(AppAction::Send { command }),
            None => {},
        }
        proof {
            assert(actions@ =~= seq![AppAction::StartRenderThread { width, height }] + send_all(
                spec_request_render(AppState { render_started: true, ..*old(self) }, 0, elapsed).1,
            ));
        }
        actions
    }

    /// Handles one event from the compositor and returns what the caller
    /// must do, in order.
    pub fn event(&mut self, event: AppEvent) -> (actions: Vec<AppAction>)
        ensures
            (*final(self), actions@) == spec_event(*old(self), event),
    {
        let ghost e = event;
        let mut actions: Vec<AppAction> = Vec::new();
        match event {
            AppEvent::RegistryGlobal { name, interface, version } => {
                let compositor = String::from_str("wl_compositor");
                let layer_shell = String::from_str("zwlr_layer_shell_v1");
                if interface == compositor {
                    self.compositor = Some(name);
                    actions.push(AppAction::BindCompositor { name, version });
                } else if interface == layer_shell {
                    self.layer_shell = Some(name);
                    actions.push(AppAction::BindLayerShell { name, version });
                }
            },
            AppEvent::RegistryGlobalRemove { name } => {
                if self.compositor == Some(name) {
                    self.compositor = None;
                    actions.push(AppAction::ForgetCompositor);
                }
                if self.layer_shell == Some(name) {
                    self.layer_shell = None;
                    actions.push(AppAction::ForgetLayerShell);
                }
                proof {
                    let c = old(self).compositor == Some(name);
                    let l = old(self).layer_shell == Some(name);
                    assert(actions@ =~= (if c { seq![AppAction::ForgetCompositor] } else { seq![] })
                        + (if l { seq![AppAction::ForgetLayerShell] } else { seq![] }));
                }
            },
            AppEvent::LayerSurfaceConfigure { serial, width, height, elapsed } => {
                actions.push(AppAction::AckConfigure { serial });
                if !self.has_surface {
                    return actions;
                }
                let started = self.ensure_render_thread_started(width, height, elapsed);
                let mut i: usize = 0;
                while i < started.len()
                    invariant
                        0 <= i <= started.len(),
                        actions@ =~= seq![AppAction::AckConfigure { serial }] + started@.take(i as int),
                    decreases started.len() - i,
                {
                    actions.push(started[i]);
                    i = i + 1;
                    proof {
                        assert(started@.take(i as int) =~= started@.take((i - 1) as int).push(started@[i - 1]));
                    }
                }
                proof {
                    assert(started@.take(started@.len() as int) =~= started@);
                }
                actions.push(AppAction::Send { command: RenderCommand::Resize { width, height } });
                actions.push(AppAction::RequestFrame);
                actions.push(AppAction::Commit);
            },
            AppEvent::LayerSurfaceClosed => {
                self.closed = true;
                if self.render_started {
                    actions.push(AppAction::Send { command: RenderCommand::Exit });
                }
            },
            AppEvent::FrameDone { completed, elapsed } => {
                if self.has_surface {
                    actions.push(AppAction::RequestFrame);
                    actions.push(AppAction::Commit);
                }
                match self.try_request_render(completed, elapsed) {
                    Some(command) => actions.push(AppAction::Send { command }),
                    None => {},
                }
            },
            AppEvent::Other => {},
        }
        actions
    }
}

} // verus!
