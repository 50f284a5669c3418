use vstd::prelude::*;

use crate::wayland_app::graphics::{
    exposes_uniform, feeds, lemma_frame_shape, spec_render_steps, GraphicsState, CURSOR_UNIFORM,
    MICROS_PER_SECOND, RESOLUTION_UNIFORM, TIME_HI_LO_UNIFORM, TIME_UNIFORM,
};

verus! {

/// GLSL ES 3.00 text placed before a ShaderToy-style `mainImage` function:
/// version line, precision, the uniforms that the renderer feeds, the
/// vertex-stage input, the output colour and the ShaderToy globals.
pub const SHADER_TOY_PRELUDE: &'static str = "\n        #version 300 es\n        precision highp float;\n        \n        uniform float u_time;          // legacy (kept for compatibility)\n        uniform vec2  u_time_hi_lo;    // NEW: (hi, lo) parts of time in seconds\n        uniform vec2 u_resolution;\n        uniform vec2 u_mouse;\n\n        in vec2 v_position;\n\n        out vec4 fragColor;\n\n        float iTime;\n        vec3 iResolution;\n        vec iMouse;\n\n        ";

/// GLSL text placed after the user's code: a `main` that fills the
/// ShaderToy globals from the uniforms and calls `mainImage`.
pub const SHADER_TOY_EPILOGUE: &'static str = "\n\n        void main() {\n            iResolution=vec3(u_resolution,u_resolution.x/u_resolution.y);\n\n            // Reconstruct higher-precision time\n            // (still a float in GLSL, but keeps fractional motion stable for very long uptimes)\n            iTime = u_time_hi_lo.x + u_time_hi_lo.y;\n\n            iMouse=u_mouse;\n            vec2 w=(v_position * 0.5 + 0.5) * u_resolution.xy;\n            mainImage(fragColor,w);\n        }\n        ";

/// What `shader_toy_adaptor` makes of a fragment shader, as text.
pub open spec fn spec_shader_toy_adaptor(fragment_shader: Seq<char>) -> Seq<char> {
    SHADER_TOY_PRELUDE@ + fragment_shader + SHADER_TOY_EPILOGUE@
}

/// Wraps a ShaderToy-style fragment shader (code that defines
/// `void mainImage(out vec4, in vec2)`) into a complete GLSL ES 3.00
/// fragment shader: the prelude, the user's code verbatim, the epilogue.
pub fn shader_toy_adaptor(fragment_shader: String) -> (res: String)
    ensures
        res@ == spec_shader_toy_adaptor(fragment_shader@),
{
    let mut res = String::from_str(SHADER_TOY_PRELUDE);
    res.append(fragment_shader.as_str());
    res.append(SHADER_TOY_EPILOGUE);
    res
}


/// `s` is one or more spaces.
pub open spec fn is_blank(s: Seq<char>) -> bool {
    s.len() > 0 && forall|i: int| 0 <= i < s.len() ==> s[i] == ' '
}

/// `text` holds the GLSL declaration `uniform <ty> <name>;` somewhere, with
/// any run of spaces between type and name.
pub open spec fn declares_uniform(text: Seq<char>, ty: Seq<char>, name: Seq<char>) -> bool {
    exists|i: int, j: int, k: int, l: int|
        #![trigger text.subrange(i, j), text.subrange(j, k), text.subrange(k, l)]
        0 <= i <= j <= k <= l <= text.len() && text.subrange(i, j) == "uniform "@ + ty && is_blank(
            text.subrange(j, k),
        ) && text.subrange(k, l) == name + ";"@
}

/// `text` contains `name` somewhere.
pub open spec fn mentions(text: Seq<char>, name: Seq<char>) -> bool {
    exists|i: int, j: int| 0 <= i <= j <= text.len() && #[trigger] text.subrange(i, j) == name
}

/// The user's code stands verbatim right after the prelude, and the result
/// is exactly as long as its three parts.
pub proof fn lemma_adaptor_embeds_shader(fragment_shader: Seq<char>)
    ensures
        spec_shader_toy_adaptor(fragment_shader).len() == SHADER_TOY_PRELUDE@.len() + fragment_shader.len()
            + SHADER_TOY_EPILOGUE@.len(),
        spec_shader_toy_adaptor(fragment_shader).subrange(0, SHADER_TOY_PRELUDE@.len() as int)
            == SHADER_TOY_PRELUDE@,
        spec_shader_toy_adaptor(fragment_shader).subrange(
            SHADER_TOY_PRELUDE@.len() as int,
            (SHADER_TOY_PRELUDE@.len() + fragment_shader.len()) as int,
        ) == fragment_shader,
        spec_shader_toy_adaptor(fragment_shader).subrange(
            (SHADER_TOY_PRELUDE@.len() + fragment_shader.len()) as int,
            spec_shader_toy_adaptor(fragment_shader).len() as int,
        ) == SHADER_TOY_EPILOGUE@,
{
    let r = spec_shader_toy_adaptor(fragment_shader);
    let p = SHADER_TOY_PRELUDE@.len() as int;
    let n = fragment_shader.len() as int;
    assert(r.subrange(0, p) =~= SHADER_TOY_PRELUDE@);
    assert(r.subrange(p, p + n) =~= fragment_shader);
    assert(r.subrange(p + n, r.len() as int) =~= SHADER_TOY_EPILOGUE@);
}

/// Different shaders give different results: nothing of the user's code is
/// lost in the wrapping.
pub proof fn lemma_adaptor_injective(a: Seq<char>, b: Seq<char>)
    requires
        spec_shader_toy_adaptor(a) == spec_shader_toy_adaptor(b),
    ensures
        a == b,
{
    lemma_adaptor_embeds_shader(a);
    lemma_adaptor_embeds_shader(b);
}

/// Whatever the user's code, the adapted shader declares every uniform the
/// renderer feeds: `u_time`, `u_time_hi_lo`, `u_resolution` and `u_mouse`.
pub proof fn lemma_adaptor_declares_fed_uniforms(fragment_shader: Seq<char>)
    ensures
        declares_uniform(spec_shader_toy_adaptor(fragment_shader), "float"@, TIME_UNIFORM@),
        declares_uniform(spec_shader_toy_adaptor(fragment_shader), "vec2"@, TIME_HI_LO_UNIFORM@),
        declares_uniform(spec_shader_toy_adaptor(fragment_shader), "vec2"@, RESOLUTION_UNIFORM@),
        declares_uniform(spec_shader_toy_adaptor(fragment_shader), "vec2"@, CURSOR_UNIFORM@),
{
    reveal_strlit("\n        #version 300 es\n        precision highp float;\n        \n        uniform float u_time;          // legacy (kept for compatibility)\n        uniform vec2  u_time_hi_lo;    // NEW: (hi, lo) parts of time in seconds\n        uniform vec2 u_resolution;\n        uniform vec2 u_mouse;\n\n        in vec2 v_position;\n\n        out vec4 fragColor;\n\n        float iTime;\n        vec3 iResolution;\n        vec iMouse;\n\n        ");
    reveal_strlit("u_time");
    reveal_strlit("u_time_hi_lo");
    reveal_strlit("u_resolution");
    reveal_strlit("u_mouse");
    reveal_strlit("uniform ");
    reveal_strlit(";");
    reveal_strlit("float");
    reveal_strlit("vec2");
    let r = spec_shader_toy_adaptor(fragment_shader);
    lemma_adaptor_embeds_shader(fragment_shader);
    let pre = SHADER_TOY_PRELUDE@;
    assert forall|i: int, j: int| 0 <= i <= j <= pre.len() implies r.subrange(i, j) == pre.subrange(i, j) by {
        assert(r.subrange(i, j) =~= pre.subrange(i, j));
    }
    // uniform float u_time;
    assert(pre.subrange(73, 86) =~= "uniform "@ + "float"@);
    assert(is_blank(pre.subrange(86, 87)));
    assert(pre.subrange(87, 94) =~= TIME_UNIFORM@ + ";"@);
    assert(r.subrange(73, 86) == pre.subrange(73, 86));
    assert(r.subrange(86, 87) == pre.subrange(86, 87));
    assert(r.subrange(87, 94) == pre.subrange(87, 94));
    // uniform vec2  u_time_hi_lo;
    assert(pre.subrange(147, 159) =~= "uniform "@ + "vec2"@);
    assert(is_blank(pre.subrange(159, 161)));
    assert(pre.subrange(161, 174) =~= TIME_HI_LO_UNIFORM@ + ";"@);
    assert(r.subrange(147, 159) == pre.subrange(147, 159));
    assert(r.subrange(159, 161) == pre.subrange(159, 161));
    assert(r.subrange(161, 174) == pre.subrange(161, 174));
    // uniform vec2 u_resolution;
    assert(pre.subrange(228, 240) =~= "uniform "@ + "vec2"@);
    assert(is_blank(pre.subrange(240, 241)));
    assert(pre.subrange(241, 254) =~= RESOLUTION_UNIFORM@ + ";"@);
    assert(r.subrange(228, 240) == pre.subrange(228, 240));
    assert(r.subrange(240, 241) == pre.subrange(240, 241));
    assert(r.subrange(241, 254) == pre.subrange(241, 254));
    // uniform vec2 u_mouse;
    assert(pre.subrange(263, 275) =~= "uniform "@ + "vec2"@);
    assert(is_blank(pre.subrange(275, 276)));
    assert(pre.subrange(276, 284) =~= CURSOR_UNIFORM@ + ";"@);
    assert(r.subrange(263, 275) == pre.subrange(263, 275));
    assert(r.subrange(275, 276) == pre.subrange(275, 276));
    assert(r.subrange(276, 284) == pre.subrange(276, 284));
}

/// The `main` that the adaptor appends reads `u_time_hi_lo` (for `iTime`),
/// `u_resolution` and `u_mouse`; each is declared by the prelude, and
/// whenever the linked program has it, every frame feeds it. The time pair
/// a frame feeds adds up to the frame's time: whole seconds plus the
/// remaining microseconds.
pub proof fn lemma_epilogue_inputs_are_fed(fragment_shader: Seq<char>, g: GraphicsState, elapsed: u64)
    ensures
        mentions(SHADER_TOY_EPILOGUE@, TIME_HI_LO_UNIFORM@),
        mentions(SHADER_TOY_EPILOGUE@, RESOLUTION_UNIFORM@),
        mentions(SHADER_TOY_EPILOGUE@, CURSOR_UNIFORM@),
        declares_uniform(spec_shader_toy_adaptor(fragment_shader), "vec2"@, TIME_HI_LO_UNIFORM@),
        declares_uniform(spec_shader_toy_adaptor(fragment_shader), "vec2"@, RESOLUTION_UNIFORM@),
        declares_uniform(spec_shader_toy_adaptor(fragment_shader), "vec2"@, CURSOR_UNIFORM@),
        g.time_hi_lo_uniform ==> feeds(spec_render_steps(g, elapsed), TIME_HI_LO_UNIFORM@),
        g.resolution_uniform ==> feeds(spec_render_steps(g, elapsed), RESOLUTION_UNIFORM@),
        g.cursor_uniform ==> feeds(spec_render_steps(g, elapsed), CURSOR_UNIFORM@),
        forall|i: int|
            0 <= i < spec_render_steps(g, elapsed).len() && #[trigger] spec_render_steps(g, elapsed)[i] is SetTimeHiLo
                ==> spec_render_steps(g, elapsed)[i]->seconds * MICROS_PER_SECOND + spec_render_steps(g, elapsed)[i]->micros
                == elapsed,
{
    reveal_strlit("\n\n        void main() {\n            iResolution=vec3(u_resolution,u_resolution.x/u_resolution.y);\n\n            // Reconstruct higher-precision time\n            // (still a float in GLSL, but keeps fractional motion stable for very long uptimes)\n            iTime = u_time_hi_lo.x + u_time_hi_lo.y;\n\n            iMouse=u_mouse;\n            vec2 w=(v_position * 0.5 + 0.5) * u_resolution.xy;\n            mainImage(fragColor,w);\n        }\n        ");
    reveal_strlit("u_time_hi_lo");
    reveal_strlit("u_resolution");
    reveal_strlit("u_mouse");
    let epi = SHADER_TOY_EPILOGUE@;
    assert(epi.subrange(265, 277) =~= TIME_HI_LO_UNIFORM@);
    assert(epi.subrange(53, 65) =~= RESOLUTION_UNIFORM@);
    assert(epi.subrange(318, 325) =~= CURSOR_UNIFORM@);
    lemma_adaptor_declares_fed_uniforms(fragment_shader);
    lemma_frame_shape(g, elapsed);
    assert(exposes_uniform(g, TIME_HI_LO_UNIFORM@) <== g.time_hi_lo_uniform);
    assert(exposes_uniform(g, RESOLUTION_UNIFORM@) <== g.resolution_uniform);
    assert(exposes_uniform(g, CURSOR_UNIFORM@) <== g.cursor_uniform);
}

} // verus!
