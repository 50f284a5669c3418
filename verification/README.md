# shader_layer

A Wayland layer-shell background that draws a fragment shader with OpenGL ES.

- `src/` (verified with Verus): the ShaderToy adaptor (`adaptors`), the
  event-driven state of the Wayland side with its render throttle
  (`wayland_app::app_state`), the render thread's command handling
  (`wayland_app::render_thread`) and the plain-value part of the renderer:
  size, the uniforms fed per frame (the time both as `u_time` and, for
  adapted ShaderToy shaders, as the `u_time_hi_lo` pair of whole seconds and
  the rest), the shader build and release sequences and the build failure
  policy (`wayland_app::graphics`). Proved laws tie the adaptor's text to the
  renderer: every uniform the adapted shader's `main` reads is declared and,
  when the program has it, fed on every frame.
- `app/`: the Wayland connection, threads, channels, clock and the EGL/GL
  calls, which carry out what the library decides.
- `tests/`: tests of the library on concrete values.
