use vstd::prelude::*;

verus! {

/// A command from the Wayland thread to the render thread.
///
/// Times are whole microseconds since the application started; the
/// renderer turns them into seconds for the shader.
#[derive(Debug, Clone, Copy, PartialEq, Eq, Structural)]
pub enum RenderCommand {
    /// Draw one frame for the given time.
    Render { elapsed: u64 },
    /// The surface now has this size.
    Resize { width: u32, height: u32 },
    /// Leave the render loop.
    Exit,
}

/// A message from the render thread back to the Wayland thread.
#[derive(Debug, Clone, Copy, PartialEq, Eq, Structural)]
pub enum RenderEvent {
    /// A frame (or, at start-up, the initialisation) is done.
    FrameComplete { elapsed: u64 },
}

/// What the render thread does with one received command.
#[derive(Debug, Clone, Copy, PartialEq, Eq, Structural)]
pub enum RenderStep {
    /// Draw a frame for this time.
    Draw { elapsed: u64 },
    /// Resize the drawing surface and the viewport.
    Resize { width: u32, height: u32 },
    /// Leave the loop: an `Exit` command, or the command channel closed.
    Stop,
}

/// The step, and the reply (if any) to send once the step is done.
#[derive(Debug, Clone, Copy, PartialEq, Eq, Structural)]
pub struct RenderDecision {
    pub step: RenderStep,
    pub reply: Option<RenderEvent>,
}

/// What the render thread decides for `received`, where `None` stands for a
/// command channel whose sender is gone.
pub open spec fn spec_render_decision(received: Option<RenderCommand>) -> RenderDecision {
    match received {
        Some(RenderCommand::Render { elapsed }) => RenderDecision {
            step: RenderStep::Draw { elapsed },
            reply: Some(RenderEvent::FrameComplete { elapsed }),
        },
        Some(RenderCommand::Resize { width, height }) => RenderDecision {
            step: RenderStep::Resize { width, height },
            reply: None,
        },
        Some(RenderCommand::Exit) => RenderDecision { step: RenderStep::Stop, reply: None },
        None => RenderDecision { step: RenderStep::Stop, reply: None },
    }
}

/// The event the render thread sends once its graphics are set up, before
/// it reads any command: a completed frame at time zero, which marks the
/// renderer idle.
pub fn initial_render_event() -> (event: RenderEvent)
    ensures
        event == (RenderEvent::FrameComplete { elapsed: 0 }),
{
    RenderEvent::FrameComplete { elapsed: 0 }
}

/// One turn of the render thread's loop: a `Render` command is drawn and
/// answered with a `FrameComplete` for the same time, a `Resize` command
/// resizes without an answer, and `Exit` or a closed channel stops the loop.
pub fn render_thread_step(received: Option<RenderCommand>) -> (decision: RenderDecision)
    ensures
        decision == spec_render_decision(received),
{
    match received {
        Some(RenderCommand::Render { elapsed }) => RenderDecision {
            step: RenderStep::Draw { elapsed },
            reply: Some(RenderEvent::FrameComplete { elapsed }),
        },
        Some(RenderCommand::Resize { width, height }) => RenderDecision {
            step: RenderStep::Resize { width, height },
            reply: None,
        },
        Some(RenderCommand::Exit) => RenderDecision { step: RenderStep::Stop, reply: None },
        None => RenderDecision { step: RenderStep::Stop, reply: None },
    }
}

/// Every drawn frame is answered by exactly one `FrameComplete` carrying the
/// time it was drawn for, and nothing else is answered.
pub proof fn lemma_each_render_answered_once(received: Option<RenderCommand>)
    ensures
        (spec_render_decision(received).reply is Some) <==> (spec_render_decision(received).step is Draw),
        spec_render_decision(received).step matches RenderStep::Draw { elapsed }
            ==> spec_render_decision(received).reply == Some(RenderEvent::FrameComplete { elapsed }),
{
}

/// The loop stops exactly on `Exit` or when the channel is closed.
pub proof fn lemma_stops_only_on_exit_or_close(received: Option<RenderCommand>)
    ensures
        (spec_render_decision(received).step is Stop) <==> (received is None || received == Some(RenderCommand::Exit)),
{
}

/// What the render thread does with each kind of command, over all values:
/// a `Render` is drawn for its own time and answered for that time; a
/// `Resize` resizes to exactly the command's width and height, unanswered;
/// `Exit` and a closed channel stop the loop, unanswered.
pub proof fn lemma_render_thread_law(elapsed: u64, width: u32, height: u32)
    ensures
        spec_render_decision(Some(RenderCommand::Render { elapsed })) == (RenderDecision {
            step: RenderStep::Draw { elapsed },
            reply: Some(RenderEvent::FrameComplete { elapsed }),
        }),
        spec_render_decision(Some(RenderCommand::Resize { width, height })) == (RenderDecision {
            step: RenderStep::Resize { width, height },
            reply: None,
        }),
        spec_render_decision(Some(RenderCommand::Exit)) == (RenderDecision { step: RenderStep::Stop, reply: None }),
        spec_render_decision(None) == (RenderDecision { step: RenderStep::Stop, reply: None }),
{
}

} // verus!
