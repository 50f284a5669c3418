//! Verified core of a Wayland layer-shell background that renders a
//! fragment shader with OpenGL ES: the ShaderToy adaptor, the event-driven
//! state of the Wayland side, the render thread's command handling and the
//! plain-value part of the renderer.

pub mod adaptors;
pub mod wayland_app;
