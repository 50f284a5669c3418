use shader_layer::wayland_app::graphics::{
    check_shader_stage, program_build_steps, split_time, teardown_steps, BuildStep, DrawStep, GraphicsState,
    ShaderKind, ShaderStage, StageVerdict, TeardownStep, CURSOR_UNIFORM, MICROS_PER_SECOND, POSITION_ATTRIBUTE,
    RESOLUTION_UNIFORM, TIME_HI_LO_UNIFORM, TIME_UNIFORM,
};

#[test]
fn new_state_converts_size_and_needs_callback_for_cursor() {
    let g = GraphicsState::new(800, 600, true, true, true, false, true);
    assert_eq!(
        g,
        GraphicsState {
            width: 800,
            height: 600,
            time_uniform: true,
            time_hi_lo_uniform: true,
            resolution_uniform: true,
            cursor_uniform: false,
        }
    );
    let g = GraphicsState::new(800, 600, false, false, false, true, true);
    assert!(g.cursor_uniform);
    let g = GraphicsState::new(800, 600, false, false, false, true, false);
    assert!(!g.cursor_uniform);
}

#[test]
fn new_state_wraps_huge_sizes_like_as_i32() {
    let g = GraphicsState::new(u32::MAX, 2_147_483_648, false, false, false, false, false);
    assert_eq!(g.width, -1);
    assert_eq!(g.height, i32::MIN);
}

#[test]
fn split_time_gives_seconds_and_rest() {
    assert_eq!(split_time(0), (0, 0));
    assert_eq!(split_time(999_999), (0, 999_999));
    assert_eq!(split_time(1_000_000), (1, 0));
    assert_eq!(split_time(86_400_123_456), (86_400, 123_456));
    let (s, m) = split_time(u64::MAX);
    assert_eq!(s * MICROS_PER_SECOND + m, u64::MAX);
    assert!(m < MICROS_PER_SECOND);
}

#[test]
fn full_frame_steps() {
    let g = GraphicsState::new(640, 480, true, true, true, true, true);
    assert_eq!(
        g.render_steps(3_250_000),
        vec![
            DrawStep::Viewport { width: 640, height: 480 },
            DrawStep::UseProgram,
            DrawStep::SetTime { elapsed: 3_250_000 },
            DrawStep::SetTimeHiLo { seconds: 3, micros: 250_000 },
            DrawStep::SetResolution { width: 640, height: 480 },
            DrawStep::SetCursor,
            DrawStep::DrawQuad,
        ]
    );
}

#[test]
fn adapted_shader_frame_feeds_hi_lo_time() {
    // a ShaderToy program keeps u_time_hi_lo (main reads it); u_time may be optimised away
    let g = GraphicsState::new(100, 100, false, true, true, false, false);
    let steps = g.render_steps(12_000_001);
    assert!(steps.contains(&DrawStep::SetTimeHiLo { seconds: 12, micros: 1 }));
    assert!(!steps.iter().any(|s| matches!(s, DrawStep::SetTime { .. })));
}

#[test]
fn frame_without_uniforms() {
    let g = GraphicsState::new(10, 20, false, false, false, false, false);
    assert_eq!(
        g.render_steps(5),
        vec![DrawStep::Viewport { width: 10, height: 20 }, DrawStep::UseProgram, DrawStep::DrawQuad]
    );
}

#[test]
fn resize_then_render_uses_new_size() {
    let mut g = GraphicsState::new(10, 20, false, false, true, false, false);
    let steps = g.resize(1920, 1080);
    assert_eq!(
        steps,
        vec![
            DrawStep::ResizeSurface { width: 1920, height: 1080 },
            DrawStep::Viewport { width: 1920, height: 1080 },
        ]
    );
    assert_eq!(
        g.render_steps(0),
        vec![
            DrawStep::Viewport { width: 1920, height: 1080 },
            DrawStep::UseProgram,
            DrawStep::SetResolution { width: 1920, height: 1080 },
            DrawStep::DrawQuad,
        ]
    );
}

#[test]
fn shader_failure_policy() {
    assert_eq!(check_shader_stage(ShaderStage::Vertex, true), StageVerdict::Continue);
    assert_eq!(check_shader_stage(ShaderStage::Fragment, true), StageVerdict::Continue);
    assert_eq!(check_shader_stage(ShaderStage::Link, true), StageVerdict::Continue);
    assert_eq!(check_shader_stage(ShaderStage::Vertex, false), StageVerdict::Exit { code: 1 });
    assert_eq!(check_shader_stage(ShaderStage::Fragment, false), StageVerdict::Exit { code: 1 });
    assert_eq!(check_shader_stage(ShaderStage::Link, false), StageVerdict::Panic);
}

#[test]
fn program_build_order() {
    let v = ShaderKind::Vertex;
    let f = ShaderKind::Fragment;
    assert_eq!(
        program_build_steps(),
        vec![
            BuildStep::CreateProgram,
            BuildStep::CreateShader { kind: v },
            BuildStep::ShaderSource { kind: v },
            BuildStep::CompileShader { kind: v },
            BuildStep::Check { stage: ShaderStage::Vertex },
            BuildStep::AttachShader { kind: v },
            BuildStep::CreateShader { kind: f },
            BuildStep::ShaderSource { kind: f },
            BuildStep::CompileShader { kind: f },
            BuildStep::Check { stage: ShaderStage::Fragment },
            BuildStep::AttachShader { kind: f },
            BuildStep::LinkProgram,
            BuildStep::Check { stage: ShaderStage::Link },
            BuildStep::DetachShader { kind: f },
            BuildStep::DeleteShader { kind: f },
            BuildStep::DetachShader { kind: v },
            BuildStep::DeleteShader { kind: v },
            BuildStep::UseProgram,
        ]
    );
}

#[test]
fn teardown_order() {
    assert_eq!(
        teardown_steps(),
        vec![
            TeardownStep::ReleaseCurrent,
            TeardownStep::DeleteProgram,
            TeardownStep::DeleteBuffer,
            TeardownStep::DestroySurface,
            TeardownStep::DestroyContext,
            TeardownStep::Terminate,
        ]
    );
}

#[test]
fn uniform_names() {
    assert_eq!(TIME_UNIFORM, "u_time");
    assert_eq!(TIME_HI_LO_UNIFORM, "u_time_hi_lo");
    assert_eq!(RESOLUTION_UNIFORM, "u_resolution");
    assert_eq!(CURSOR_UNIFORM, "u_mouse");
    assert_eq!(POSITION_ATTRIBUTE, "a_position");
}
