//! Render surfaces: the bind sequence of a GPU-shaded canvas with its error
//! taxonomy, the per-frame plan of a bound surface, the shared pointer
//! tracker, and the set of mounted surfaces.
use vstd::prelude::*;

verus! {

/// Fixed-point scale of the per-mille options (`1000` stands for 1).
pub const PM_SCALE: u32 = 1000;

/// Which shader of the pair failed to compile.
#[derive(Clone, Copy, Debug, PartialEq, Eq, Structural)]
pub enum ShaderStage {
    Vertex,
    Fragment,
}

/// The two inputs that every fragment program must declare.
#[derive(Clone, Copy, Debug, PartialEq, Eq, Structural)]
pub enum RequiredUniform {
    Time,
    Resolution,
}

/// Why binding a surface failed. Each is fatal for that surface only.
#[derive(Clone, Debug, PartialEq, Eq)]
pub enum SurfaceError {
    /// No canvas carries the requested id.
    SurfaceNotFound,
    /// The environment gave no GPU context (or no buffer in it).
    ContextUnavailable,
    /// A shader did not compile; `log` is the compiler's report.
    ShaderCompileError { stage: ShaderStage, log: String },
    /// The program did not link; `log` is the linker's report.
    ProgramLinkError { log: String },
    /// The program lacks a mandatory uniform.
    MissingUniform { name: RequiredUniform },
}

/// The steps of binding a surface, in the order they are taken, and the two
/// ends: `Ready` once every step succeeded, `Failed` at the first failure.
#[derive(Clone, Copy, Debug, PartialEq, Eq, Structural)]
pub enum BindStep {
    LocateCanvas,
    AcquireContext,
    CompileVertex,
    CompileFragment,
    LinkProgram,
    UploadQuad,
    ResolveTime,
    ResolveResolution,
    Ready,
    Failed,
}

/// What the host reports after carrying out a bind step.
#[derive(Clone, Debug, PartialEq, Eq)]
pub enum StepOutcome {
    Succeeded,
    /// The step failed; `log` holds the host's report, where it gives one.
    Failed { log: String },
}

/// A bind step that still awaits its outcome.
pub open spec fn pending(s: BindStep) -> bool {
    !(s is Ready) && !(s is Failed)
}

/// The step that follows a successful one.
pub open spec fn next_step(s: BindStep) -> BindStep {
    match s {
        BindStep::LocateCanvas => BindStep::AcquireContext,
        BindStep::AcquireContext => BindStep::CompileVertex,
        BindStep::CompileVertex => BindStep::CompileFragment,
        BindStep::CompileFragment => BindStep::LinkProgram,
        BindStep::LinkProgram => BindStep::UploadQuad,
        BindStep::UploadQuad => BindStep::ResolveTime,
        BindStep::ResolveTime => BindStep::ResolveResolution,
        BindStep::ResolveResolution => BindStep::Ready,
        BindStep::Ready => BindStep::Ready,
        BindStep::Failed => BindStep::Failed,
    }
}

/// The error that a failure at pending step `s` stands for.
pub open spec fn failure_at(s: BindStep, log: String) -> SurfaceError {
    match s {
        BindStep::LocateCanvas => SurfaceError::SurfaceNotFound,
        BindStep::CompileVertex => SurfaceError::ShaderCompileError { stage: ShaderStage::Vertex, log },
        BindStep::CompileFragment => SurfaceError::ShaderCompileError { stage: ShaderStage::Fragment, log },
        BindStep::LinkProgram => SurfaceError::ProgramLinkError { log },
        BindStep::ResolveTime => SurfaceError::MissingUniform { name: RequiredUniform::Time },
        BindStep::ResolveResolution => SurfaceError::MissingUniform { name: RequiredUniform::Resolution },
        _ => SurfaceError::ContextUnavailable,
    }
}

/// Progress through binding one surface. The host carries out the step that
/// `step` names and reports back through `advance`.
pub struct BindSession {
    pub step: BindStep,
}

impl BindSession {
    /// A bind about to look for its canvas.
    pub fn new() -> (b: Self)
        ensures
            b.step is LocateCanvas,
    {
        BindSession { step: BindStep::LocateCanvas }
    }

    /// The step to carry out next.
    pub fn current(&self) -> (s: BindStep)
        ensures
            s == self.step,
    {
        self.step
    }

    /// Takes the outcome of the current step: on success moves to the next
    /// step; on failure stops at `Failed` and returns the error it stands for.
    pub fn advance(&mut self, outcome: StepOutcome) -> (r: Option<SurfaceError>)
        requires
            pending(old(self).step),
        ensures
            outcome is Succeeded ==> final(self).step == next_step(old(self).step) && r is None,
            outcome matches StepOutcome::Failed { log } ==> {
                &&& final(self).step is Failed
                &&& r == Some(failure_at(old(self).step, log))
            },
    {
        match outcome {
            StepOutcome::Succeeded => {
                self.step = match self.step {
                    BindStep::LocateCanvas => BindStep::AcquireContext,
                    BindStep::AcquireContext => BindStep::CompileVertex,
                    BindStep::CompileVertex => BindStep::CompileFragment,
                    BindStep::CompileFragment => BindStep::LinkProgram,
                    BindStep::LinkProgram => BindStep::UploadQuad,
                    BindStep::UploadQuad => BindStep::ResolveTime,
                    BindStep::ResolveTime => BindStep::ResolveResolution,
                    _ => BindStep::Ready,
                };
                None
            },
            StepOutcome::Failed { log } => {
                let e = match self.step {
                    BindStep::LocateCanvas => SurfaceError::SurfaceNotFound,
                    BindStep::CompileVertex => SurfaceError::ShaderCompileError {
                        stage: ShaderStage::Vertex,
                        log,
                    },
                    BindStep::CompileFragment => SurfaceError::ShaderCompileError {
                        stage: ShaderStage::Fragment,
                        log,
                    },
                    BindStep::LinkProgram => SurfaceError::ProgramLinkError { log },
                    BindStep::ResolveTime => SurfaceError::MissingUniform { name: RequiredUniform::Time },
                    BindStep::ResolveResolution => SurfaceError::MissingUniform {
                        name: RequiredUniform::Resolution,
                    },
                    _ => SurfaceError::ContextUnavailable,
                };
                self.step = BindStep::Failed;
                Some(e)
            },
        }
    }
}

/// A direction for the shader's sun, each component in thousandths.
#[derive(Clone, Copy, Debug, PartialEq, Eq, Structural)]
pub struct SunDirection {
    pub x_milli: i32,
    pub y_milli: i32,
    pub z_milli: i32,
}

/// A point in a canvas's pixel space, in billionths of a pixel.
#[derive(Clone, Copy, Debug, PartialEq, Eq, Structural)]
pub struct CanvasPoint {
    pub x_npx: i128,
    pub y_npx: i128,
}

/// Per-surface configuration, in fixed units.
#[derive(Clone, Copy, Debug, PartialEq, Eq, Structural)]
pub struct CloudOptions {
    /// Fraction of device pixels actually rendered, per mille.
    pub render_scale_pm: u32,
    /// Upper bound on the device pixel ratio used, per mille.
    pub dpr_cap_pm: u32,
    /// Phase shift added to the animation time, in microseconds.
    pub time_offset_us: i64,
    /// Per-instance seed, in thousandths.
    pub seed_milli: u32,
    /// Whether the program is fed the scroll progress.
    pub use_scroll: bool,
    /// Sun direction, if one is configured.
    pub default_sun: Option<SunDirection>,
    /// Pointer influence per mille: 0 ignores the pointer, 1000 follows it fully.
    pub mouse_mix_pm: u32,
}

impl CloudOptions {
    /// Options within their stated ranges: render scale and pointer influence in `[0, 1]`.
    pub open spec fn valid(&self) -> bool {
        self.render_scale_pm <= PM_SCALE && self.mouse_mix_pm <= PM_SCALE
    }
}

impl Default for CloudOptions {
    /// Scale 0.55, ratio cap 1.25, no offset, seed 0, no scroll, sun
    /// (0.8, 0.9, 0.6), pointer ignored.
    fn default() -> (o: Self)
        ensures
            o.render_scale_pm == 550,
            o.dpr_cap_pm == 1250,
            o.time_offset_us == 0,
            o.seed_milli == 0,
            !o.use_scroll,
            o.default_sun == Some(SunDirection { x_milli: 800, y_milli: 900, z_milli: 600 }),
            o.mouse_mix_pm == 0,
    {
        CloudOptions {
            render_scale_pm: 550,
            dpr_cap_pm: 1250,
            time_offset_us: 0,
            seed_milli: 0,
            use_scroll: false,
            default_sun: Some(SunDirection { x_milli: 800, y_milli: 900, z_milli: 600 }),
            mouse_mix_pm: 0,
        }
    }
}

/// Options of the hero surface: the defaults, rendered at 0.75 scale and
/// fully reactive to the pointer.
pub fn hero_options() -> (o: CloudOptions)
    ensures
        o.render_scale_pm == 750,
        o.mouse_mix_pm == PM_SCALE,
        o.dpr_cap_pm == 1250,
        o.time_offset_us == 0,
        o.seed_milli == 0,
        !o.use_scroll,
        o.default_sun == Some(SunDirection { x_milli: 800, y_milli: 900, z_milli: 600 }),
{
    let d = CloudOptions::default();
    CloudOptions { render_scale_pm: 750, mouse_mix_pm: PM_SCALE, ..d }
}

/// Options of a background sprite's surface: rendered at 0.45 scale, with the
/// sprite's seed, a phase shift of ten seconds per unit of seed, and the sun
/// at (0.7, 0.8, 0.9).
pub fn sprite_options(seed_milli: u32) -> (o: CloudOptions)
    ensures
        o.render_scale_pm == 450,
        o.seed_milli == seed_milli,
        o.time_offset_us == seed_milli * 10_000,
        o.default_sun == Some(SunDirection { x_milli: 700, y_milli: 800, z_milli: 900 }),
        o.dpr_cap_pm == 1250,
        !o.use_scroll,
        o.mouse_mix_pm == 0,
{
    let d = CloudOptions::default();
    CloudOptions {
        render_scale_pm: 450,
        seed_milli,
        time_offset_us: (seed_milli as i64) * 10_000,
        default_sun: Some(SunDirection { x_milli: 700, y_milli: 800, z_milli: 900 }),
        ..d
    }
}

/// Which optional uniforms the linked program declares. An absent one is no
/// error: that input is simply not fed.
#[derive(Clone, Copy, Debug, PartialEq, Eq, Structural)]
pub struct OptionalUniforms {
    pub pointer: bool,
    pub sun_direction: bool,
    pub scroll_progress: bool,
    pub seed: bool,
    pub mouse_mix: bool,
}

/// The last pointer position seen, shared read-only by every surface.
#[derive(Clone, Copy, Debug, PartialEq, Eq, Structural)]
pub struct PointerTracker {
    /// Window coordinates, in milli-pixels.
    pub x_mpx: i64,
    pub y_mpx: i64,
}

impl PointerTracker {
    /// A tracker that has seen no pointer yet (at the window's origin).
    pub fn new() -> (t: Self)
        ensures
            t.x_mpx == 0 && t.y_mpx == 0,
    {
        PointerTracker { x_mpx: 0, y_mpx: 0 }
    }

    /// Records a pointer move to window coordinates `(client_x, client_y)` pixels.
    pub fn record(&mut self, client_x: i32, client_y: i32)
        ensures
            final(self).x_mpx == client_x * 1000,
            final(self).y_mpx == client_y * 1000,
    {
        self.x_mpx = (client_x as i64) * 1000;
        self.y_mpx = (client_y as i64) * 1000;
    }
}

/// What the host reports about a surface's canvas at a frame.
#[derive(Clone, Copy, Debug, PartialEq, Eq, Structural)]
pub struct FrameInput {
    /// Elapsed time of the shared animation clock, in microseconds.
    pub elapsed_us: u64,
    /// Whether the canvas is still attached to the document.
    pub connected: bool,
    /// Whether the canvas carries the stop sentinel.
    pub stop_requested: bool,
    /// Device pixel ratio, per mille.
    pub device_pixel_ratio_pm: u32,
    /// Canvas size in CSS pixels.
    pub css_width_px: i32,
    pub css_height_px: i32,
    /// Canvas top-left corner in window coordinates, in milli-pixels.
    pub canvas_left_mpx: i64,
    pub canvas_top_mpx: i64,
    /// Current scroll progress, in parts per million.
    pub scroll_progress_ppm: u32,
}

/// Everything one frame of a surface sets before its full-quad draw.
#[derive(Clone, Copy, Debug, PartialEq, Eq, Structural)]
pub struct DrawPlan {
    /// New drawing-buffer width, only where it differs from the current one.
    pub resize_width: Option<u32>,
    /// New drawing-buffer height, only where it differs from the current one.
    pub resize_height: Option<u32>,
    /// Drawing-buffer size in pixels (also the viewport and `resolution`).
    pub pixel_width: u32,
    pub pixel_height: u32,
    /// The `time` input, in microseconds.
    pub time_us: i128,
    /// The `seed` input (thousandths), if the program declares it.
    pub seed_milli: Option<u32>,
    /// The pointer-influence input (per mille), if declared.
    pub mouse_mix_pm: Option<u32>,
    /// The sun-direction input, if declared and configured.
    pub sun_direction: Option<SunDirection>,
    /// The pointer input in canvas pixel space, if declared.
    pub pointer: Option<CanvasPoint>,
    /// The scroll-progress input (ppm), if declared and enabled.
    pub scroll_progress_ppm: Option<u32>,
}

/// What a surface does at a frame.
#[derive(Clone, Copy, Debug, PartialEq, Eq, Structural)]
pub enum FrameOutcome {
    /// The loop ends and requests no further frame; `clear_stop_flag` says
    /// whether the stop sentinel is to be removed from the canvas.
    Stop { clear_stop_flag: bool },
    /// Draw as planned and request the next frame.
    Draw(DrawPlan),
}

/// The device pixel ratio in use: the reported one, at most the cap.
pub open spec fn effective_dpr(dpr_pm: int, cap_pm: int) -> int {
    if dpr_pm < cap_pm {
        dpr_pm
    } else {
        cap_pm
    }
}

/// Drawing-buffer length for a CSS length (at least 1):
/// `round(css * dpr * scale)`, held at `u32::MAX`.
pub open spec fn backing_len(css_px: int, dpr_pm: int, scale_pm: int) -> int {
    let c = if css_px < 1 {
        1
    } else {
        css_px
    };
    let n = (c * dpr_pm * scale_pm + 500_000) / 1_000_000;
    if n > u32::MAX {
        u32::MAX as int
    } else {
        n
    }
}

/// Pointer coordinate in canvas pixel space, in billionths of a pixel:
/// window coordinate less the canvas edge, times ratio and scale.
pub open spec fn pointer_local(pointer_mpx: int, edge_mpx: int, dpr_pm: int, scale_pm: int) -> int {
    (pointer_mpx - edge_mpx) * dpr_pm * scale_pm
}

/// The plan of a frame that draws, for a surface with `options` and
/// `uniforms` whose drawing buffer is `width` by `height` pixels.
pub open spec fn plan_for(
    options: CloudOptions,
    uniforms: OptionalUniforms,
    width: u32,
    height: u32,
    input: FrameInput,
    pointer: PointerTracker,
) -> DrawPlan {
    let dpr = effective_dpr(input.device_pixel_ratio_pm as int, options.dpr_cap_pm as int);
    let pw = backing_len(input.css_width_px as int, dpr, options.render_scale_pm as int) as u32;
    let ph = backing_len(input.css_height_px as int, dpr, options.render_scale_pm as int) as u32;
    DrawPlan {
        resize_width: if pw != width { Some(pw) } else { None },
        resize_height: if ph != height { Some(ph) } else { None },
        pixel_width: pw,
        pixel_height: ph,
        time_us: (input.elapsed_us + options.time_offset_us) as i128,
        seed_milli: if uniforms.seed { Some(options.seed_milli) } else { None },
        mouse_mix_pm: if uniforms.mouse_mix { Some(options.mouse_mix_pm) } else { None },
        sun_direction: if uniforms.sun_direction { options.default_sun } else { None },
        pointer: if uniforms.pointer {
            Some(
                CanvasPoint {
                    x_npx: pointer_local(pointer.x_mpx as int, input.canvas_left_mpx as int, dpr, options.render_scale_pm as int) as i128,
                    y_npx: pointer_local(pointer.y_mpx as int, input.canvas_top_mpx as int, dpr, options.render_scale_pm as int) as i128,
                },
            )
        } else {
            None
        },
        scroll_progress_ppm: if options.use_scroll && uniforms.scroll_progress {
            Some(input.scroll_progress_ppm)
        } else {
            None
        },
    }
}

fn backing_len_exec(css_px: i32, dpr_pm: u32, scale_pm: u32) -> (n: u32)
    ensures
        n == backing_len(css_px as int, dpr_pm as int, scale_pm as int),
{
    let c: u128 = if css_px < 1 { 1 } else { css_px as u128 };
    assert(c * dpr_pm * scale_pm <= 0x8000_0000 * 0x1_0000_0000 * 0x1_0000_0000) by (nonlinear_arith)
        requires
            c <= 0x8000_0000,
            dpr_pm <= 0xFFFF_FFFF,
            scale_pm <= 0xFFFF_FFFF,
    ;
    assert(c * dpr_pm <= 0x8000_0000 * 0x1_0000_0000) by (nonlinear_arith)
        requires
            c <= 0x8000_0000,
            dpr_pm <= 0xFFFF_FFFF,
    ;
    let n: u128 = (c * (dpr_pm as u128) * (scale_pm as u128) + 500_000) / 1_000_000;
    if n > u32::MAX as u128 {
        u32::MAX
    } else {
        n as u32
    }
}

fn pointer_local_exec(pointer_mpx: i64, edge_mpx: i64, dpr_pm: u32, scale_pm: u32) -> (v: i128)
    requires
        scale_pm <= PM_SCALE,
    ensures
        v == pointer_local(pointer_mpx as int, edge_mpx as int, dpr_pm as int, scale_pm as int),
{
    let d: i128 = pointer_mpx as i128 - edge_mpx as i128;
    assert(-0x1_0000_0000_0000_0000 * 0x1_0000_0000 * 1000 <= d * dpr_pm * scale_pm
        <= 0x1_0000_0000_0000_0000 * 0x1_0000_0000 * 1000) by (nonlinear_arith)
        requires
            -0x1_0000_0000_0000_0000 <= d <= 0x1_0000_0000_0000_0000,
            0 <= dpr_pm <= 0x1_0000_0000,
            0 <= scale_pm <= 1000,
    ;
    assert(-0x1_0000_0000_0000_0000 * 0x1_0000_0000 <= d * dpr_pm <= 0x1_0000_0000_0000_0000
        * 0x1_0000_0000) by (nonlinear_arith)
        requires
            -0x1_0000_0000_0000_0000 <= d <= 0x1_0000_0000_0000_0000,
            0 <= dpr_pm <= 0x1_0000_0000,
    ;
    d * (dpr_pm as i128) * (scale_pm as i128)
}

/// The outcome that ends a frame loop.
pub open spec fn stop_outcome(clear_stop_flag: bool) -> FrameOutcome {
    FrameOutcome::Stop { clear_stop_flag }
}

/// A session whose loop has ended, otherwise as `s`.
pub open spec fn ended(s: SurfaceSession) -> SurfaceSession {
    SurfaceSession { running: false, ..s }
}

/// A session with a drawing buffer of `width` by `height`, otherwise as `s`.
pub open spec fn resized(s: SurfaceSession, width: u32, height: u32) -> SurfaceSession {
    SurfaceSession { pixel_width: width, pixel_height: height, ..s }
}

/// One frame of session `s`: the outcome and the session afterwards. A
/// detached canvas ends the loop; so does the stop sentinel, which is then to
/// be cleared. Otherwise the frame draws as `plan_for` says and the session
/// keeps the new drawing-buffer size. A loop that has ended stays ended.
pub open spec fn frame_step(s: SurfaceSession, input: FrameInput, pointer: PointerTracker) -> (
    FrameOutcome,
    SurfaceSession,
) {
    if !s.running {
        (stop_outcome(false), s)
    } else if !input.connected {
        (stop_outcome(false), ended(s))
    } else if input.stop_requested {
        (stop_outcome(true), ended(s))
    } else {
        let plan = plan_for(s.options, s.uniforms, s.pixel_width, s.pixel_height, input, pointer);
        (FrameOutcome::Draw(plan), resized(s, plan.pixel_width, plan.pixel_height))
    }
}

/// A bound surface: its options, the optional inputs its program declares,
/// its drawing-buffer size, and whether its frame loop still runs.
#[derive(Clone, Copy, Debug, PartialEq, Eq, Structural)]
pub struct SurfaceSession {
    pub options: CloudOptions,
    pub uniforms: OptionalUniforms,
    pub pixel_width: u32,
    pub pixel_height: u32,
    pub running: bool,
}

impl SurfaceSession {
    /// A running session for a surface whose bind succeeded, with its canvas's
    /// drawing buffer currently `width` by `height` pixels.
    pub fn new(options: CloudOptions, uniforms: OptionalUniforms, width: u32, height: u32) -> (s: Self)
        ensures
            s.options == options,
            s.uniforms == uniforms,
            s.pixel_width == width,
            s.pixel_height == height,
            s.running,
    {
        SurfaceSession { options, uniforms, pixel_width: width, pixel_height: height, running: true }
    }

    /// One frame, as `frame_step` states.
    pub fn tick(&mut self, input: &FrameInput, pointer: &PointerTracker) -> (out: FrameOutcome)
        requires
            old(self).options.valid(),
        ensures
            (out, *final(self)) == frame_step(*old(self), *input, *pointer),
    {
        if !self.running {
            return FrameOutcome::Stop { clear_stop_flag: false };
        }
        if !input.connected {
            self.running = false;
            return FrameOutcome::Stop { clear_stop_flag: false };
        }
        if input.stop_requested {
            self.running = false;
            return FrameOutcome::Stop { clear_stop_flag: true };
        }
        let o = self.options;
        let dpr: u32 = if input.device_pixel_ratio_pm < o.dpr_cap_pm {
            input.device_pixel_ratio_pm
        } else {
            o.dpr_cap_pm
        };
        let pw = backing_len_exec(input.css_width_px, dpr, o.render_scale_pm);
        let ph = backing_len_exec(input.css_height_px, dpr, o.render_scale_pm);
        let pointer_at = if self.uniforms.pointer {
            Some(
                CanvasPoint {
                    x_npx: pointer_local_exec(pointer.x_mpx, input.canvas_left_mpx, dpr, o.render_scale_pm),
                    y_npx: pointer_local_exec(pointer.y_mpx, input.canvas_top_mpx, dpr, o.render_scale_pm),
                },
            )
        } else {
            None
        };
        let plan = DrawPlan {
            resize_width: if pw != self.pixel_width { Some(pw) } else { None },
            resize_height: if ph != self.pixel_height { Some(ph) } else { None },
            pixel_width: pw,
            pixel_height: ph,
            time_us: input.elapsed_us as i128 + o.time_offset_us as i128,
            seed_milli: if self.uniforms.seed { Some(o.seed_milli) } else { None },
            mouse_mix_pm: if self.uniforms.mouse_mix { Some(o.mouse_mix_pm) } else { None },
            sun_direction: if self.uniforms.sun_direction { o.default_sun } else { None },
            pointer: pointer_at,
            scroll_progress_ppm: if o.use_scroll && self.uniforms.scroll_progress {
                Some(input.scroll_progress_ppm)
            } else {
                None
            },
        };
        self.pixel_width = pw;
        self.pixel_height = ph;
        FrameOutcome::Draw(plan)
    }
}

/// The sessions after mounting the outcome of one bind: a bound surface
/// joins them; a failed bind leaves them as they were.
pub open spec fn after_mount(
    sessions: Seq<SurfaceSession>,
    bound: Result<SurfaceSession, SurfaceError>,
) -> Seq<SurfaceSession> {
    match bound {
        Ok(s) => sessions.push(s),
        Err(_) => sessions,
    }
}

/// The surfaces mounted so far, each independent of the others.
pub struct SurfaceSet {
    pub sessions: Vec<SurfaceSession>,
}

impl SurfaceSet {
    /// A set with no surface mounted.
    pub fn new() -> (set: Self)
        ensures
            set.sessions@.len() == 0,
    {
        SurfaceSet { sessions: Vec::new() }
    }

    /// Mounts the outcome of one bind. A bound surface joins the set and its
    /// position is returned; a failed bind's error is handed back to the caller.
    pub fn mount(&mut self, bound: Result<SurfaceSession, SurfaceError>) -> (r: Result<usize, SurfaceError>)
        ensures
            final(self).sessions@ == after_mount(old(self).sessions@, bound),
            bound is Ok ==> r == Ok::<usize, SurfaceError>(old(self).sessions@.len() as usize),
            bound matches Err(e) ==> r == Err::<usize, SurfaceError>(e),
    {
        match bound {
            Ok(s) => {
                let at = self.sessions.len();
                self.sessions.push(s);
                Ok(at)
            },
            Err(e) => Err(e),
        }
    }

    /// One frame of the surface at position `i`; the others are untouched.
    pub fn tick_surface(&mut self, i: usize, input: &FrameInput, pointer: &PointerTracker) -> (out: FrameOutcome)
        requires
            i < old(self).sessions@.len(),
            old(self).sessions@[i as int].options.valid(),
        ensures
            ({
                let (o, s) = frame_step(old(self).sessions@[i as int], *input, *pointer);
                out == o && final(self).sessions@ == old(self).sessions@.update(i as int, s)
            }),
    {
        let mut s = self.sessions[i];
        let out = s.tick(input, pointer);
        self.sessions.set(i, s);
        out
    }

    /// Number of surfaces whose frame loop still runs.
    pub fn running_count(&self) -> (n: usize)
        ensures
            n == running_in(self.sessions@, self.sessions@.len() as int),
    {
        let mut n: usize = 0;
        let mut k: usize = 0;
        while k < self.sessions.len()
            invariant
                k <= self.sessions@.len(),
                n == running_in(self.sessions@, k as int),
                n <= k,
            decreases self.sessions@.len() - k,
        {
            if self.sessions[k].running {
                n += 1;
            }
            k += 1;
        }
        n
    }
}

/// Number of running sessions among the first `k` of `sessions`.
pub open spec fn running_in(sessions: Seq<SurfaceSession>, k: int) -> nat
    decreases k,
{
    if k <= 0 {
        0
    } else {
        running_in(sessions, k - 1) + if sessions[k - 1].running {
            1nat
        } else {
            0nat
        }
    }
}

/// One failing mount does not keep another from mounting: after a bind that
/// failed (a missing canvas, say), a surface that bound still joins the set,
/// nothing else changes, and its first frame on an attached canvas draws.
pub proof fn lemma_mount_isolation(
    sessions: Seq<SurfaceSession>,
    e: SurfaceError,
    t: SurfaceSession,
    input: FrameInput,
    pointer: PointerTracker,
)
    requires
        t.running,
        input.connected,
        !input.stop_requested,
    ensures
        after_mount(after_mount(sessions, Err(e)), Ok(t)) == sessions.push(t),
        frame_step(after_mount(after_mount(sessions, Err(e)), Ok(t)).last(), input, pointer).0 is Draw,
{
}

} // verus!
