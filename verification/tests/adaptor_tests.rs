use shader_layer::adaptors::{shader_toy_adaptor, SHADER_TOY_EPILOGUE, SHADER_TOY_PRELUDE};

fn expected(fragment_shader: &str) -> String {
    format!(
        "
        #version 300 es
        precision highp float;
        
        uniform float u_time;          // legacy (kept for compatibility)
        uniform vec2  u_time_hi_lo;    // NEW: (hi, lo) parts of time in seconds
        uniform vec2 u_resolution;
        uniform vec2 u_mouse;

        in vec2 v_position;

        out vec4 fragColor;

        float iTime;
        vec3 iResolution;
        vec iMouse;

        {fragment_shader}

        void main() {{
            iResolution=vec3(u_resolution,u_resolution.x/u_resolution.y);

            // Reconstruct higher-precision time
            // (still a float in GLSL, but keeps fractional motion stable for very long uptimes)
            iTime = u_time_hi_lo.x + u_time_hi_lo.y;

            iMouse=u_mouse;
            vec2 w=(v_position * 0.5 + 0.5) * u_resolution.xy;
            mainImage(fragColor,w);
        }}
        "
    )
}

#[test]
fn adaptor_matches_template() {
    let user = "void mainImage(out vec4 c, in vec2 p) { c = vec4(p / iResolution.xy, 0.5, 1.0); }";
    assert_eq!(shader_toy_adaptor(user.to_string()), expected(user));
}

#[test]
fn adaptor_of_empty_shader_is_prelude_and_epilogue() {
    let out = shader_toy_adaptor(String::new());
    assert_eq!(out, expected(""));
    assert_eq!(out, format!("{}{}", SHADER_TOY_PRELUDE, SHADER_TOY_EPILOGUE));
}

#[test]
fn adaptor_part_lengths() {
    assert_eq!(SHADER_TOY_PRELUDE.chars().count(), 420);
    assert_eq!(SHADER_TOY_EPILOGUE.chars().count(), 444);
    let user = "x";
    assert_eq!(shader_toy_adaptor(user.to_string()).chars().count(), 420 + 1 + 444);
}

#[test]
fn adaptor_embeds_code_verbatim() {
    let user = "// héllo {braces} \"quotes\"\nvoid mainImage(out vec4 c, in vec2 p) {}";
    let out = shader_toy_adaptor(user.to_string());
    assert!(out.starts_with(SHADER_TOY_PRELUDE));
    assert!(out.ends_with(SHADER_TOY_EPILOGUE));
    assert_eq!(&out[SHADER_TOY_PRELUDE.len()..out.len() - SHADER_TOY_EPILOGUE.len()], user);
}

#[test]
fn adaptor_is_injective_on_examples() {
    let a = shader_toy_adaptor("a".to_string());
    let b = shader_toy_adaptor("b".to_string());
    assert_ne!(a, b);
}

#[test]
fn adaptor_declares_fed_uniforms() {
    let out = shader_toy_adaptor("void mainImage(out vec4 c, in vec2 p) {}".to_string());
    assert!(out.contains("uniform float u_time;"));
    assert!(out.contains("uniform vec2 u_resolution;"));
    assert!(out.contains("uniform vec2 u_mouse;"));
    assert!(out.contains("uniform vec2  u_time_hi_lo;"));
    assert!(out.contains("mainImage(fragColor,w);"));
}

#[test]
fn epilogue_reads_fed_uniforms() {
    assert!(SHADER_TOY_EPILOGUE.contains("iTime = u_time_hi_lo.x + u_time_hi_lo.y;"));
    assert!(SHADER_TOY_EPILOGUE.contains("u_resolution"));
    assert!(SHADER_TOY_EPILOGUE.contains("iMouse=u_mouse;"));
    assert!(!SHADER_TOY_EPILOGUE.contains("u_time;"));
}
