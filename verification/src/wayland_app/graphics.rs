use vstd::prelude::*;

verus! {

/// Name of the single-float time uniform (seconds; kept for shaders that
/// still read it).
pub const TIME_UNIFORM: &'static str = "u_time";

/// Name of the uniform that receives the time as (whole seconds, fraction
/// of a second); adapted ShaderToy shaders rebuild `iTime` from it.
pub const TIME_HI_LO_UNIFORM: &'static str = "u_time_hi_lo";

/// Name of the uniform that receives the drawing size.
pub const RESOLUTION_UNIFORM: &'static str = "u_resolution";

/// Name of the uniform that receives the cursor position.
pub const CURSOR_UNIFORM: &'static str = "u_mouse";

/// Name of the vertex attribute that receives the quad's corners.
pub const POSITION_ATTRIBUTE: &'static str = "a_position";

/// Microseconds in a second: frame times are whole microseconds.
pub const MICROS_PER_SECOND: u64 = 1_000_000;

/// One OpenGL ES / EGL operation of the renderer, in the order the caller
/// must carry them out.
#[derive(Debug, Clone, Copy, PartialEq, Eq, Structural)]
pub enum DrawStep {
    /// Resize the native EGL window to this size (offsets 0, 0).
    ResizeSurface { width: i32, height: i32 },
    /// Set the viewport to (0, 0, width, height).
    Viewport { width: i32, height: i32 },
    /// Make the shader program current.
    UseProgram,
    /// Set `u_time` to `elapsed` microseconds, given in seconds.
    SetTime { elapsed: u64 },
    /// Set `u_time_hi_lo` to (`seconds`, `micros` given in seconds).
    SetTimeHiLo { seconds: u64, micros: u64 },
    /// Set `u_resolution` to (width, height).
    SetResolution { width: i32, height: i32 },
    /// Set `u_mouse` to what the cursor callback returns now.
    SetCursor,
    /// Draw the full-screen quad: a triangle strip of the 4 vertices.
    DrawQuad,
}

/// The renderer's state as plain values: the drawing size, kept as the
/// signed numbers OpenGL takes, and which uniforms the linked program
/// exposes.
#[derive(Debug, Clone, Copy, PartialEq, Eq, Structural)]
pub struct GraphicsState {
    pub width: i32,
    pub height: i32,
    /// The program has a `u_time` uniform.
    pub time_uniform: bool,
    /// The program has a `u_time_hi_lo` uniform.
    pub time_hi_lo_uniform: bool,
    /// The program has a `u_resolution` uniform.
    pub resolution_uniform: bool,
    /// The program has a `u_mouse` uniform and a cursor callback was given.
    pub cursor_uniform: bool,
}

/// `seq![x]` when `b` holds, else empty.
pub open spec fn step_if(b: bool, x: DrawStep) -> Seq<DrawStep> {
    if b { seq![x] } else { seq![] }
}

/// A time in microseconds as (whole seconds, remaining microseconds).
pub open spec fn spec_split_time(elapsed: u64) -> (u64, u64) {
    ((elapsed / MICROS_PER_SECOND) as u64, (elapsed % MICROS_PER_SECOND) as u64)
}

/// Splits a time in microseconds into whole seconds and the microseconds
/// left over, so that the shader can add the two parts without losing the
/// fraction to a large float.
pub fn split_time(elapsed: u64) -> (parts: (u64, u64))
    ensures
        parts == spec_split_time(elapsed),
        parts.0 * MICROS_PER_SECOND + parts.1 == elapsed,
        parts.1 < MICROS_PER_SECOND,
{
    (elapsed / MICROS_PER_SECOND, elapsed % MICROS_PER_SECOND)
}

/// The steps of one frame at time `elapsed`: viewport, program, the
/// uniforms the program has, the quad.
pub open spec fn spec_render_steps(g: GraphicsState, elapsed: u64) -> Seq<DrawStep> {
    seq![DrawStep::Viewport { width: g.width, height: g.height }, DrawStep::UseProgram]
        + step_if(g.time_uniform, DrawStep::SetTime { elapsed })
        + step_if(
            g.time_hi_lo_uniform,
            DrawStep::SetTimeHiLo { seconds: spec_split_time(elapsed).0, micros: spec_split_time(elapsed).1 },
        )
        + step_if(g.resolution_uniform, DrawStep::SetResolution { width: g.width, height: g.height })
        + step_if(g.cursor_uniform, DrawStep::SetCursor)
        + seq![DrawStep::DrawQuad]
}

fn push_if(steps: &mut Vec<DrawStep>, b: bool, x: DrawStep)
    ensures
        final(steps)@ == old(steps)@ + step_if(b, x),
{
    if b {
        steps.push(x);
    } else {
        assert(old(steps)@ + step_if(b, x) =~= old(steps)@);
    }
}

impl GraphicsState {
    /// The state of a renderer created at `width` x `height` (converted as
    /// `as i32` does) whose program was searched for its uniforms. The
    /// cursor is fed only when a cursor callback exists and the program
    /// has `u_mouse`; without a callback the uniform is not looked up.
    pub fn new(
        width: u32,
        height: u32,
        time_uniform_found: bool,
        time_hi_lo_uniform_found: bool,
        resolution_uniform_found: bool,
        has_cursor_callback: bool,
        cursor_uniform_found: bool,
    ) -> (g: GraphicsState)
        ensures
            g == (GraphicsState {
                width: width as i32,
                height: height as i32,
                time_uniform: time_uniform_found,
                time_hi_lo_uniform: time_hi_lo_uniform_found,
                resolution_uniform: resolution_uniform_found,
                cursor_uniform: has_cursor_callback && cursor_uniform_found,
            }),
    {
        GraphicsState {
            width: width as i32,
            height: height as i32,
            time_uniform: time_uniform_found,
            time_hi_lo_uniform: time_hi_lo_uniform_found,
            resolution_uniform: resolution_uniform_found,
            cursor_uniform: has_cursor_callback && cursor_uniform_found,
        }
    }

    /// Takes the new surface size and returns the steps that apply it: the
    /// native window is resized, then the viewport.
    pub fn resize(&mut self, width: u32, height: u32) -> (steps: Vec<DrawStep>)
        ensures
            *final(self) == (GraphicsState { width: width as i32, height: height as i32, ..*old(self) }),
            steps@ == seq![
                DrawStep::ResizeSurface { width: width as i32, height: height as i32 },
                DrawStep::Viewport { width: width as i32, height: height as i32 },
            ],
    {
        self.width = width as i32;
        self.height = height as i32;
        let mut steps: Vec<DrawStep> = Vec::new();
        steps.push(DrawStep::ResizeSurface { width: width as i32, height: height as i32 });
        steps.push(DrawStep::Viewport { width: width as i32, height: height as i32 });
        steps
    }

    /// The steps of one frame at time `elapsed` (microseconds since start)
    /// at the current size.
    pub fn render_steps(&self, elapsed: u64) -> (steps: Vec<DrawStep>)
        ensures
            steps@ == spec_render_steps(*self, elapsed),
    {
        let (seconds, micros) = split_time(elapsed);
        let mut steps: Vec<DrawStep> = Vec::new();
        steps.push(DrawStep::Viewport { width: self.width, height: self.height });
        steps.push(DrawStep::UseProgram);
        push_if(&mut steps, self.time_uniform, DrawStep::SetTime { elapsed });
        push_if(&mut steps, self.time_hi_lo_uniform, DrawStep::SetTimeHiLo { seconds, micros });
        push_if(
            &mut steps,
            self.resolution_uniform,
            DrawStep::SetResolution { width: self.width, height: self.height },
        );
        push_if(&mut steps, self.cursor_uniform, DrawStep::SetCursor);
        steps.push(DrawStep::DrawQuad);
        proof {
            assert(steps@ =~= spec_render_steps(*self, elapsed));
        }
        steps
    }
}

/// A checkpoint while building the shader program.
#[derive(Debug, Clone, Copy, PartialEq, Eq, Structural)]
pub enum ShaderStage {
    /// The vertex shader was compiled.
    Vertex,
    /// The fragment shader was compiled.
    Fragment,
    /// The program was linked.
    Link,
}

/// What to do after a checkpoint.
#[derive(Debug, Clone, Copy, PartialEq, Eq, Structural)]
pub enum StageVerdict {
    /// Go on building.
    Continue,
    /// Log the info log and end the process with this code.
    Exit { code: i32 },
    /// Panic with the info log.
    Panic,
}

/// The outcome of a checkpoint, as a value.
pub open spec fn spec_check_shader_stage(stage: ShaderStage, succeeded: bool) -> StageVerdict {
    if succeeded {
        StageVerdict::Continue
    } else {
        match stage {
            ShaderStage::Vertex => StageVerdict::Exit { code: 1 },
            ShaderStage::Fragment => StageVerdict::Exit { code: 1 },
            ShaderStage::Link => StageVerdict::Panic,
        }
    }
}

/// The failure policy of program building: a shader that does not compile
/// ends the process with status 1, a program that does not link panics,
/// success goes on.
pub fn check_shader_stage(stage: ShaderStage, succeeded: bool) -> (verdict: StageVerdict)
    ensures
        verdict == spec_check_shader_stage(stage, succeeded),
{
    if succeeded {
        StageVerdict::Continue
    } else {
        match stage {
            ShaderStage::Vertex => StageVerdict::Exit { code: 1 },
            ShaderStage::Fragment => StageVerdict::Exit { code: 1 },
            ShaderStage::Link => StageVerdict::Panic,
        }
    }
}

/// The uniform a frame step sets, if any.
pub open spec fn fed_uniform(step: DrawStep) -> Option<Seq<char>> {
    match step {
        DrawStep::SetTime { .. } => Some(TIME_UNIFORM@),
        DrawStep::SetTimeHiLo { .. } => Some(TIME_HI_LO_UNIFORM@),
        DrawStep::SetResolution { .. } => Some(RESOLUTION_UNIFORM@),
        DrawStep::SetCursor => Some(CURSOR_UNIFORM@),
        _ => None,
    }
}

/// Some step of `steps` sets the uniform `name`.
pub open spec fn feeds(steps: Seq<DrawStep>, name: Seq<char>) -> bool {
    exists|i: int| 0 <= i < steps.len() && fed_uniform(#[trigger] steps[i]) == Some(name)
}

/// The renderer has a location for uniform `name` (for the cursor: and a
/// callback that reports the cursor).
pub open spec fn exposes_uniform(g: GraphicsState, name: Seq<char>) -> bool {
    ||| name == TIME_UNIFORM@ && g.time_uniform
    ||| name == TIME_HI_LO_UNIFORM@ && g.time_hi_lo_uniform
    ||| name == RESOLUTION_UNIFORM@ && g.resolution_uniform
    ||| name == CURSOR_UNIFORM@ && g.cursor_uniform
}

/// Every frame sets the viewport to the current size first, makes the
/// program current and ends with the quad; in between it feeds exactly the
/// uniforms the program has. Both time uniforms carry the frame's time:
/// `u_time` the time itself, `u_time_hi_lo` whole seconds and the rest,
/// which add up to it.
pub proof fn lemma_frame_shape(g: GraphicsState, elapsed: u64)
    ensures
        spec_render_steps(g, elapsed)[0] == (DrawStep::Viewport { width: g.width, height: g.height }),
        spec_render_steps(g, elapsed)[1] == DrawStep::UseProgram,
        spec_render_steps(g, elapsed).last() == DrawStep::DrawQuad,
        forall|name: Seq<char>| feeds(spec_render_steps(g, elapsed), name) <==> exposes_uniform(g, name),
        forall|i: int|
            0 <= i < spec_render_steps(g, elapsed).len() ==> match #[trigger] spec_render_steps(g, elapsed)[i] {
                DrawStep::SetTime { elapsed: t } => t == elapsed,
                DrawStep::SetTimeHiLo { seconds, micros } => seconds * MICROS_PER_SECOND + micros == elapsed
                    && micros < MICROS_PER_SECOND,
                DrawStep::SetResolution { width, height } => width == g.width && height == g.height,
                _ => true,
            },
{
    let s = spec_render_steps(g, elapsed);
    let (sec, mic) = spec_split_time(elapsed);
    let head = seq![DrawStep::Viewport { width: g.width, height: g.height }, DrawStep::UseProgram];
    let t = step_if(g.time_uniform, DrawStep::SetTime { elapsed });
    let h = step_if(g.time_hi_lo_uniform, DrawStep::SetTimeHiLo { seconds: sec, micros: mic });
    let r = step_if(g.resolution_uniform, DrawStep::SetResolution { width: g.width, height: g.height });
    let c = step_if(g.cursor_uniform, DrawStep::SetCursor);
    assert(s =~= head + t + h + r + c + seq![DrawStep::DrawQuad]);
    let a = 2 + t.len();
    let b = a + h.len();
    let d = b + r.len();
    assert forall|i: int| 0 <= i < s.len() implies (i < 2 ==> s[i] == head[i]) && (2 <= i < a ==> s[i]
        == t[i - 2]) && (a <= i < b ==> s[i] == h[i - a]) && (b <= i < d ==> s[i] == r[i - b]) && (d <= i
        < s.len() - 1 ==> s[i] == c[i - d]) && (i == s.len() - 1 ==> s[i] == DrawStep::DrawQuad) by {}
    assert forall|name: Seq<char>| feeds(s, name) <==> exposes_uniform(g, name) by {
        if exposes_uniform(g, name) {
            if name == TIME_UNIFORM@ && g.time_uniform {
                assert(fed_uniform(s[2]) == Some(name));
            } else if name == TIME_HI_LO_UNIFORM@ && g.time_hi_lo_uniform {
                assert(fed_uniform(s[a as int]) == Some(name));
            } else if name == RESOLUTION_UNIFORM@ && g.resolution_uniform {
                assert(fed_uniform(s[b as int]) == Some(name));
            } else {
                assert(fed_uniform(s[d as int]) == Some(name));
            }
        }
    }
    assert(sec * MICROS_PER_SECOND + mic == elapsed);
}

/// After a resize, the next frame's viewport and resolution are the new
/// size; which uniforms are fed does not change.
pub proof fn lemma_resize_then_render(g: GraphicsState, width: u32, height: u32, elapsed: u64)
    ensures
        ({
            let g2 = GraphicsState { width: width as i32, height: height as i32, ..g };
            &&& spec_render_steps(g2, elapsed)[0] == (DrawStep::Viewport {
                width: width as i32,
                height: height as i32,
            })
            &&& forall|name: Seq<char>| exposes_uniform(g2, name) == exposes_uniform(g, name)
        }),
{
}

/// One of the two shaders of the program.
#[derive(Debug, Clone, Copy, PartialEq, Eq, Structural)]
pub enum ShaderKind {
    Vertex,
    Fragment,
}

/// One operation of building the shader program, in order. The sources are
/// the configured vertex and fragment shaders.
#[derive(Debug, Clone, Copy, PartialEq, Eq, Structural)]
pub enum BuildStep {
    CreateProgram,
    CreateShader { kind: ShaderKind },
    /// Hand the configured source of this kind to the shader.
    ShaderSource { kind: ShaderKind },
    CompileShader { kind: ShaderKind },
    /// Read the compile or link status and act on `check_shader_stage`.
    Check { stage: ShaderStage },
    AttachShader { kind: ShaderKind },
    LinkProgram,
    DetachShader { kind: ShaderKind },
    DeleteShader { kind: ShaderKind },
    UseProgram,
}

/// The steps that compile one shader, check it and attach it.
pub open spec fn spec_shader_steps(kind: ShaderKind, stage: ShaderStage) -> Seq<BuildStep> {
    seq![
        BuildStep::CreateShader { kind },
        BuildStep::ShaderSource { kind },
        BuildStep::CompileShader { kind },
        BuildStep::Check { stage },
        BuildStep::AttachShader { kind },
    ]
}

/// Building the program: create it; compile, check and attach the vertex
/// shader, then the fragment shader; link and check; detach and delete the
/// fragment shader, then the vertex shader; make the program current.
pub open spec fn spec_program_build_steps() -> Seq<BuildStep> {
    seq![BuildStep::CreateProgram] + spec_shader_steps(ShaderKind::Vertex, ShaderStage::Vertex)
        + spec_shader_steps(ShaderKind::Fragment, ShaderStage::Fragment) + seq![
        BuildStep::LinkProgram,
        BuildStep::Check { stage: ShaderStage::Link },
        BuildStep::DetachShader { kind: ShaderKind::Fragment },
        BuildStep::DeleteShader { kind: ShaderKind::Fragment },
        BuildStep::DetachShader { kind: ShaderKind::Vertex },
        BuildStep::DeleteShader { kind: ShaderKind::Vertex },
        BuildStep::UseProgram,
    ]
}

fn push_shader_steps(steps: &mut Vec<BuildStep>, kind: ShaderKind, stage: ShaderStage)
    ensures
        final(steps)@ == old(steps)@ + spec_shader_steps(kind, stage),
{
    steps.push(BuildStep::CreateShader { kind });
    steps.push(BuildStep::ShaderSource { kind });
    steps.push(BuildStep::CompileShader { kind });
    steps.push(BuildStep::Check { stage });
    steps.push(BuildStep::AttachShader { kind });
    assert(final(steps)@ =~= old(steps)@ + spec_shader_steps(kind, stage));
}

/// The steps that build the shader program.
pub fn program_build_steps() -> (steps: Vec<BuildStep>)
    ensures
        steps@ == spec_program_build_steps(),
{
    let mut steps: Vec<BuildStep> = Vec::new();
    steps.push(BuildStep::CreateProgram);
    push_shader_steps(&mut steps, ShaderKind::Vertex, ShaderStage::Vertex);
    push_shader_steps(&mut steps, ShaderKind::Fragment, ShaderStage::Fragment);
    steps.push(BuildStep::LinkProgram);
    steps.push(BuildStep::Check { stage: ShaderStage::Link });
    steps.push(BuildStep::DetachShader { kind: ShaderKind::Fragment });
    steps.push(BuildStep::DeleteShader { kind: ShaderKind::Fragment });
    steps.push(BuildStep::DetachShader { kind: ShaderKind::Vertex });
    steps.push(BuildStep::DeleteShader { kind: ShaderKind::Vertex });
    steps.push(BuildStep::UseProgram);
    assert(steps@ =~= spec_program_build_steps());
    steps
}

/// Each shader is created, compiled, checked, attached, detached and
/// deleted exactly once, in that order; it is attached before the link,
/// checked before it is attached, and detached and deleted only after the
/// link has been checked; the program is made current last.
pub proof fn lemma_program_build_order(kind: ShaderKind)
    ensures
        ({
            let s = spec_program_build_steps();
            let stage = if kind == ShaderKind::Vertex { ShaderStage::Vertex } else { ShaderStage::Fragment };
            &&& forall|x: BuildStep|
                #![trigger s.contains(x)]
                (x == BuildStep::CreateShader { kind } || x == BuildStep::CompileShader { kind } || x
                    == BuildStep::Check { stage } || x == BuildStep::AttachShader { kind } || x
                    == BuildStep::DetachShader { kind } || x == BuildStep::DeleteShader { kind }) ==> (
                s.contains(x) && forall|i: int, j: int|
                    0 <= i < s.len() && 0 <= j < s.len() && s[i] == x && s[j] == x ==> i == j)
            &&& s.index_of(BuildStep::CreateShader { kind }) < s.index_of(BuildStep::CompileShader { kind })
            &&& s.index_of(BuildStep::CompileShader { kind }) < s.index_of(BuildStep::Check { stage })
            &&& s.index_of(BuildStep::Check { stage }) < s.index_of(BuildStep::AttachShader { kind })
            &&& s.index_of(BuildStep::AttachShader { kind }) < s.index_of(BuildStep::LinkProgram)
            &&& s.index_of(BuildStep::LinkProgram) < s.index_of(BuildStep::Check { stage: ShaderStage::Link })
            &&& s.index_of(BuildStep::Check { stage: ShaderStage::Link }) < s.index_of(BuildStep::DetachShader { kind })
            &&& s.index_of(BuildStep::DetachShader { kind }) < s.index_of(BuildStep::DeleteShader { kind })
            &&& s.last() == BuildStep::UseProgram
        }),
{
    let s = spec_program_build_steps();
    assert(s =~= seq![
        BuildStep::CreateProgram,
        BuildStep::CreateShader { kind: ShaderKind::Vertex },
        BuildStep::ShaderSource { kind: ShaderKind::Vertex },
        BuildStep::CompileShader { kind: ShaderKind::Vertex },
        BuildStep::Check { stage: ShaderStage::Vertex },
        BuildStep::AttachShader { kind: ShaderKind::Vertex },
        BuildStep::CreateShader { kind: ShaderKind::Fragment },
        BuildStep::ShaderSource { kind: ShaderKind::Fragment },
        BuildStep::CompileShader { kind: ShaderKind::Fragment },
        BuildStep::Check { stage: ShaderStage::Fragment },
        BuildStep::AttachShader { kind: ShaderKind::Fragment },
        BuildStep::LinkProgram,
        BuildStep::Check { stage: ShaderStage::Link },
        BuildStep::DetachShader { kind: ShaderKind::Fragment },
        BuildStep::DeleteShader { kind: ShaderKind::Fragment },
        BuildStep::DetachShader { kind: ShaderKind::Vertex },
        BuildStep::DeleteShader { kind: ShaderKind::Vertex },
        BuildStep::UseProgram,
    ]);
}

/// One operation of releasing the renderer, in order; a failing EGL call
/// is ignored and the next one is made.
#[derive(Debug, Clone, Copy, PartialEq, Eq, Structural)]
pub enum TeardownStep {
    /// Make no context current.
    ReleaseCurrent,
    DeleteProgram,
    DeleteBuffer,
    DestroySurface,
    DestroyContext,
    /// Terminate the EGL display.
    Terminate,
}

/// Releasing the renderer: let go of the context, delete the GL objects,
/// destroy the EGL surface and context, terminate the display.
pub open spec fn spec_teardown_steps() -> Seq<TeardownStep> {
    seq![
        TeardownStep::ReleaseCurrent,
        TeardownStep::DeleteProgram,
        TeardownStep::DeleteBuffer,
        TeardownStep::DestroySurface,
        TeardownStep::DestroyContext,
        TeardownStep::Terminate,
    ]
}

/// The steps that release the renderer.
pub fn teardown_steps() -> (steps: Vec<TeardownStep>)
    ensures
        steps@ == spec_teardown_steps(),
{
    let mut steps: Vec<TeardownStep> = Vec::new();
    steps.push(TeardownStep::ReleaseCurrent);
    steps.push(TeardownStep::DeleteProgram);
    steps.push(TeardownStep::DeleteBuffer);
    steps.push(TeardownStep::DestroySurface);
    steps.push(TeardownStep::DestroyContext);
    steps.push(TeardownStep::Terminate);
    assert(steps@ =~= spec_teardown_steps());
    steps
}

/// Every resource is released exactly once; the GL objects go before the
/// context they live in, the surface before the context, and the display
/// is terminated last.
pub proof fn lemma_teardown_order()
    ensures
        spec_teardown_steps().no_duplicates(),
        spec_teardown_steps().len() == 6,
        spec_teardown_steps().index_of(TeardownStep::DeleteProgram) < spec_teardown_steps().index_of(
            TeardownStep::DestroyContext,
        ),
        spec_teardown_steps().index_of(TeardownStep::DeleteBuffer) < spec_teardown_steps().index_of(
            TeardownStep::DestroyContext,
        ),
        spec_teardown_steps().index_of(TeardownStep::DestroySurface) < spec_teardown_steps().index_of(
            TeardownStep::DestroyContext,
        ),
        spec_teardown_steps().last() == TeardownStep::Terminate,
{
}

/// Building the program only ever stops on a failed checkpoint; a failed
/// compile exits with status 1 and only a failed link panics.
pub proof fn lemma_shader_failure_policy(stage: ShaderStage, succeeded: bool)
    ensures
        (spec_check_shader_stage(stage, succeeded) is Continue) <==> succeeded,
        (spec_check_shader_stage(stage, succeeded) is Panic) <==> (!succeeded && stage is Link),
        spec_check_shader_stage(stage, succeeded) matches StageVerdict::Exit { code } ==> code == 1,
{
}

/// The layout of every frame: the viewport for the current size comes
/// first and is the only viewport step; the program is made current second
/// and only there; the quad is drawn last and only there; no surface resize
/// happens in a frame; everything in between sets a uniform, one step per
/// uniform the program has, so the frame is `3 +` that many steps long.
pub proof fn lemma_frame_layout(g: GraphicsState, elapsed: u64)
    ensures
        ({
            let s = spec_render_steps(g, elapsed);
            &&& s.len() == 3 + (if g.time_uniform { 1int } else { 0 }) + (if g.time_hi_lo_uniform { 1int } else { 0 })
                + (if g.resolution_uniform { 1int } else { 0 }) + (if g.cursor_uniform { 1int } else { 0 })
            &&& s[0] == (DrawStep::Viewport { width: g.width, height: g.height })
            &&& forall|i: int| 0 <= i < s.len() ==> ((#[trigger] s[i] is Viewport) <==> i == 0)
            &&& forall|i: int| 0 <= i < s.len() ==> ((s[i] == DrawStep::UseProgram) <==> i == 1)
            &&& forall|i: int| 0 <= i < s.len() ==> ((s[i] == DrawStep::DrawQuad) <==> i == s.len() - 1)
            &&& forall|i: int| 0 <= i < s.len() ==> !(s[i] is ResizeSurface)
            &&& forall|i: int| 2 <= i < s.len() - 1 ==> fed_uniform(s[i]) is Some
            &&& forall|i: int, j: int|
                0 <= i < s.len() && 0 <= j < s.len() && fed_uniform(s[i]) is Some && fed_uniform(s[i])
                    == fed_uniform(s[j]) ==> i == j
        }),
{
    let s = spec_render_steps(g, elapsed);
    let (sec, mic) = spec_split_time(elapsed);
    let head = seq![DrawStep::Viewport { width: g.width, height: g.height }, DrawStep::UseProgram];
    let t = step_if(g.time_uniform, DrawStep::SetTime { elapsed });
    let h = step_if(g.time_hi_lo_uniform, DrawStep::SetTimeHiLo { seconds: sec, micros: mic });
    let r = step_if(g.resolution_uniform, DrawStep::SetResolution { width: g.width, height: g.height });
    let c = step_if(g.cursor_uniform, DrawStep::SetCursor);
    assert(s =~= head + t + h + r + c + seq![DrawStep::DrawQuad]);
    let a = 2 + t.len();
    let b = a + h.len();
    let d = b + r.len();
    assert forall|i: int| 0 <= i < s.len() implies (i < 2 ==> s[i] == head[i]) && (2 <= i < a ==> s[i]
        == t[i - 2]) && (a <= i < b ==> s[i] == h[i - a]) && (b <= i < d ==> s[i] == r[i - b]) && (d <= i
        < s.len() - 1 ==> s[i] == c[i - d]) && (i == s.len() - 1 ==> s[i] == DrawStep::DrawQuad) by {}
    reveal_strlit("u_time");
    reveal_strlit("u_time_hi_lo");
    reveal_strlit("u_resolution");
    reveal_strlit("u_mouse");
    assert(TIME_UNIFORM@.len() == 6 && TIME_HI_LO_UNIFORM@.len() == 12 && RESOLUTION_UNIFORM@.len() == 12
        && CURSOR_UNIFORM@.len() == 7);
    assert(TIME_HI_LO_UNIFORM@[2] != RESOLUTION_UNIFORM@[2]);
}

/// Resizing, over all sizes: the state takes exactly the new size (as
/// OpenGL's signed numbers) and keeps its uniforms; the steps resize the
/// native window to that size and then set the viewport to it.
pub proof fn lemma_resize_law(g: GraphicsState, width: u32, height: u32, elapsed: u64)
    ensures
        ({
            let g2 = GraphicsState { width: width as i32, height: height as i32, ..g };
            &&& g2.width == width as i32 && g2.height == height as i32
            &&& spec_render_steps(g2, elapsed)[0] == (DrawStep::Viewport { width: width as i32, height: height as i32 })
        }),
{
}

/// The program build has 18 steps, none repeated.
pub proof fn lemma_program_build_distinct()
    ensures
        spec_program_build_steps().len() == 18,
        spec_program_build_steps().no_duplicates(),
{
    let s = spec_program_build_steps();
    assert(s =~= seq![
        BuildStep::CreateProgram,
        BuildStep::CreateShader { kind: ShaderKind::Vertex },
        BuildStep::ShaderSource { kind: ShaderKind::Vertex },
        BuildStep::CompileShader { kind: ShaderKind::Vertex },
        BuildStep::Check { stage: ShaderStage::Vertex },
        BuildStep::AttachShader { kind: ShaderKind::Vertex },
        BuildStep::CreateShader { kind: ShaderKind::Fragment },
        BuildStep::ShaderSource { kind: ShaderKind::Fragment },
        BuildStep::CompileShader { kind: ShaderKind::Fragment },
        BuildStep::Check { stage: ShaderStage::Fragment },
        BuildStep::AttachShader { kind: ShaderKind::Fragment },
        BuildStep::LinkProgram,
        BuildStep::Check { stage: ShaderStage::Link },
        BuildStep::DetachShader { kind: ShaderKind::Fragment },
        BuildStep::DeleteShader { kind: ShaderKind::Fragment },
        BuildStep::DetachShader { kind: ShaderKind::Vertex },
        BuildStep::DeleteShader { kind: ShaderKind::Vertex },
        BuildStep::UseProgram,
    ]);
}

} // verus!
