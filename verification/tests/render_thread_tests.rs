use shader_layer::wayland_app::render_thread::{
    initial_render_event, render_thread_step, RenderCommand, RenderDecision, RenderEvent, RenderStep,
};

#[test]
fn initial_event_is_idle_frame() {
    assert_eq!(initial_render_event(), RenderEvent::FrameComplete { elapsed: 0 });
}

#[test]
fn render_is_drawn_and_answered_with_same_time() {
    let d = render_thread_step(Some(RenderCommand::Render { elapsed: 1_500_000 }));
    assert_eq!(
        d,
        RenderDecision {
            step: RenderStep::Draw { elapsed: 1_500_000 },
            reply: Some(RenderEvent::FrameComplete { elapsed: 1_500_000 }),
        }
    );
}

#[test]
fn resize_is_not_answered() {
    let d = render_thread_step(Some(RenderCommand::Resize { width: 1920, height: 1080 }));
    assert_eq!(d.step, RenderStep::Resize { width: 1920, height: 1080 });
    assert_eq!(d.reply, None);
}

#[test]
fn exit_and_closed_channel_stop() {
    assert_eq!(render_thread_step(Some(RenderCommand::Exit)), RenderDecision { step: RenderStep::Stop, reply: None });
    assert_eq!(render_thread_step(None), RenderDecision { step: RenderStep::Stop, reply: None });
}
