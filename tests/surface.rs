use sky_backdrop::surface::{
    hero_options, sprite_options, BindSession, BindStep, CanvasPoint, CloudOptions, FrameInput,
    FrameOutcome, OptionalUniforms, PointerTracker, RequiredUniform, ShaderStage, StepOutcome,
    SunDirection, SurfaceError, SurfaceSession, SurfaceSet,
};

fn ok() -> StepOutcome {
    StepOutcome::Succeeded
}

fn failed(log: &str) -> StepOutcome {
    StepOutcome::Failed { log: log.to_string() }
}

/// Runs a bind whose steps all succeed until the one at `fail_at` (if any).
fn bind_failing_at(fail_at: Option<BindStep>, log: &str) -> Result<(), SurfaceError> {
    let mut b = BindSession::new();
    loop {
        let step = b.current();
        if step == BindStep::Ready {
            return Ok(());
        }
        let outcome = if Some(step) == fail_at { failed(log) } else { ok() };
        if let Some(e) = b.advance(outcome) {
            assert_eq!(b.current(), BindStep::Failed);
            return Err(e);
        }
    }
}

fn all_uniforms() -> OptionalUniforms {
    OptionalUniforms { pointer: true, sun_direction: true, scroll_progress: true, seed: true, mouse_mix: true }
}

fn no_uniforms() -> OptionalUniforms {
    OptionalUniforms { pointer: false, sun_direction: false, scroll_progress: false, seed: false, mouse_mix: false }
}

fn frame(elapsed_us: u64, css_w: i32, css_h: i32, dpr_pm: u32) -> FrameInput {
    FrameInput {
        elapsed_us,
        connected: true,
        stop_requested: false,
        device_pixel_ratio_pm: dpr_pm,
        css_width_px: css_w,
        css_height_px: css_h,
        canvas_left_mpx: 0,
        canvas_top_mpx: 0,
        scroll_progress_ppm: 0,
    }
}

#[test]
fn bind_steps_run_in_order() {
    let mut b = BindSession::new();
    let expected = [
        BindStep::LocateCanvas,
        BindStep::AcquireContext,
        BindStep::CompileVertex,
        BindStep::CompileFragment,
        BindStep::LinkProgram,
        BindStep::UploadQuad,
        BindStep::ResolveTime,
        BindStep::ResolveResolution,
    ];
    for step in expected {
        assert_eq!(b.current(), step);
        assert_eq!(b.advance(ok()), None);
    }
    assert_eq!(b.current(), BindStep::Ready);
}

#[test]
fn bind_errors_name_the_failed_step() {
    assert_eq!(bind_failing_at(None, ""), Ok(()));
    assert_eq!(bind_failing_at(Some(BindStep::LocateCanvas), "canvas not found"), Err(SurfaceError::SurfaceNotFound));
    assert_eq!(bind_failing_at(Some(BindStep::AcquireContext), "no WebGL2 context"), Err(SurfaceError::ContextUnavailable));
    assert_eq!(
        bind_failing_at(Some(BindStep::CompileVertex), "0:1: syntax error"),
        Err(SurfaceError::ShaderCompileError { stage: ShaderStage::Vertex, log: "0:1: syntax error".to_string() })
    );
    assert_eq!(
        bind_failing_at(Some(BindStep::CompileFragment), "0:7: undeclared"),
        Err(SurfaceError::ShaderCompileError { stage: ShaderStage::Fragment, log: "0:7: undeclared".to_string() })
    );
    assert_eq!(
        bind_failing_at(Some(BindStep::LinkProgram), "varying mismatch"),
        Err(SurfaceError::ProgramLinkError { log: "varying mismatch".to_string() })
    );
    assert_eq!(bind_failing_at(Some(BindStep::UploadQuad), ""), Err(SurfaceError::ContextUnavailable));
    assert_eq!(
        bind_failing_at(Some(BindStep::ResolveTime), ""),
        Err(SurfaceError::MissingUniform { name: RequiredUniform::Time })
    );
    assert_eq!(
        bind_failing_at(Some(BindStep::ResolveResolution), ""),
        Err(SurfaceError::MissingUniform { name: RequiredUniform::Resolution })
    );
}

#[test]
fn failed_mount_does_not_stop_the_next() {
    let mut set = SurfaceSet::new();
    // first surface: its canvas id does not exist
    let first = bind_failing_at(Some(BindStep::LocateCanvas), "");
    let first = first.map(|_| SurfaceSession::new(CloudOptions::default(), no_uniforms(), 300, 150));
    assert_eq!(set.mount(first), Err(SurfaceError::SurfaceNotFound));
    assert_eq!(set.sessions.len(), 0);
    // second surface binds fine
    let second = bind_failing_at(None, "").map(|_| SurfaceSession::new(hero_options(), all_uniforms(), 300, 150));
    assert_eq!(set.mount(second), Ok(0));
    assert_eq!(set.running_count(), 1);
    let pointer = PointerTracker::new();
    match set.tick_surface(0, &frame(16_000, 400, 400, 1000), &pointer) {
        FrameOutcome::Draw(plan) => {
            assert_eq!(plan.pixel_width, 300);
            assert_eq!(plan.pixel_height, 300);
        }
        other => panic!("expected a draw, got {other:?}"),
    }
    assert!(set.sessions[0].running);
}

#[test]
fn options_defaults_and_presets() {
    let d = CloudOptions::default();
    assert_eq!(d.render_scale_pm, 550);
    assert_eq!(d.dpr_cap_pm, 1250);
    assert_eq!(d.time_offset_us, 0);
    assert_eq!(d.seed_milli, 0);
    assert!(!d.use_scroll);
    assert_eq!(d.default_sun, Some(SunDirection { x_milli: 800, y_milli: 900, z_milli: 600 }));
    assert_eq!(d.mouse_mix_pm, 0);
    let h = hero_options();
    assert_eq!(h.render_scale_pm, 750);
    assert_eq!(h.mouse_mix_pm, 1000);
    assert_eq!(h.dpr_cap_pm, 1250);
    let s = sprite_options(123_456);
    assert_eq!(s.render_scale_pm, 450);
    assert_eq!(s.seed_milli, 123_456);
    // seed 123.456 -> 1234.56 s of phase shift
    assert_eq!(s.time_offset_us, 1_234_560_000);
    assert_eq!(s.default_sun, Some(SunDirection { x_milli: 700, y_milli: 800, z_milli: 900 }));
}

#[test]
fn frame_computes_resolution_and_resizes_only_on_change() {
    // css 400 x 200, ratio 2.0 capped at 1.25, scale 0.55: 275 x 137.5 -> 275 x 138
    let mut s = SurfaceSession::new(CloudOptions::default(), no_uniforms(), 300, 150);
    let p = PointerTracker::new();
    let out = s.tick(&frame(1_000_000, 400, 200, 2000), &p);
    match out {
        FrameOutcome::Draw(plan) => {
            assert_eq!((plan.pixel_width, plan.pixel_height), (275, 138));
            assert_eq!(plan.resize_width, Some(275));
            assert_eq!(plan.resize_height, Some(138));
            assert_eq!(plan.time_us, 1_000_000);
            assert_eq!(plan.seed_milli, None);
            assert_eq!(plan.pointer, None);
            assert_eq!(plan.sun_direction, None);
            assert_eq!(plan.scroll_progress_ppm, None);
            assert_eq!(plan.mouse_mix_pm, None);
        }
        other => panic!("expected a draw, got {other:?}"),
    }
    assert_eq!((s.pixel_width, s.pixel_height), (275, 138));
    match s.tick(&frame(1_016_000, 400, 200, 2000), &p) {
        FrameOutcome::Draw(plan) => {
            assert_eq!(plan.resize_width, None);
            assert_eq!(plan.resize_height, None);
            assert_eq!(plan.time_us, 1_016_000);
        }
        other => panic!("expected a draw, got {other:?}"),
    }
    // a zero-size canvas still renders one CSS pixel
    match s.tick(&frame(0, 0, -3, 1000), &p) {
        FrameOutcome::Draw(plan) => assert_eq!((plan.pixel_width, plan.pixel_height), (1, 1)),
        other => panic!("expected a draw, got {other:?}"),
    }
}

#[test]
fn frame_feeds_declared_uniforms() {
    let mut opts = sprite_options(500);
    opts.use_scroll = true;
    opts.mouse_mix_pm = 1000;
    let mut s = SurfaceSession::new(opts, all_uniforms(), 1, 1);
    let mut p = PointerTracker::new();
    p.record(150, 80);
    assert_eq!((p.x_mpx, p.y_mpx), (150_000, 80_000));
    let input = FrameInput {
        elapsed_us: 2_000_000,
        connected: true,
        stop_requested: false,
        device_pixel_ratio_pm: 1000,
        css_width_px: 200,
        css_height_px: 100,
        canvas_left_mpx: 100_000,
        canvas_top_mpx: 50_500,
        scroll_progress_ppm: 420_000,
    };
    match s.tick(&input, &p) {
        FrameOutcome::Draw(plan) => {
            assert_eq!((plan.pixel_width, plan.pixel_height), (90, 45));
            // 2 s elapsed plus 5 s of phase shift
            assert_eq!(plan.time_us, 7_000_000);
            assert_eq!(plan.seed_milli, Some(500));
            assert_eq!(plan.mouse_mix_pm, Some(1000));
            assert_eq!(plan.sun_direction, Some(SunDirection { x_milli: 700, y_milli: 800, z_milli: 900 }));
            assert_eq!(plan.scroll_progress_ppm, Some(420_000));
            // (150 - 100) px * 1.0 * 0.45 = 22.5 px; (80 - 50.5) px * 0.45 = 13.275 px
            assert_eq!(plan.pointer, Some(CanvasPoint { x_npx: 22_500_000_000, y_npx: 13_275_000_000 }));
        }
        other => panic!("expected a draw, got {other:?}"),
    }
}

#[test]
fn scroll_uniform_needs_option_and_declaration() {
    let p = PointerTracker::new();
    let mut input = frame(0, 10, 10, 1000);
    input.scroll_progress_ppm = 300_000;
    let mut without_option = SurfaceSession::new(CloudOptions::default(), all_uniforms(), 1, 1);
    match without_option.tick(&input, &p) {
        FrameOutcome::Draw(plan) => assert_eq!(plan.scroll_progress_ppm, None),
        other => panic!("expected a draw, got {other:?}"),
    }
    let mut opts = CloudOptions::default();
    opts.use_scroll = true;
    let mut undeclared = SurfaceSession::new(opts, no_uniforms(), 1, 1);
    match undeclared.tick(&input, &p) {
        FrameOutcome::Draw(plan) => assert_eq!(plan.scroll_progress_ppm, None),
        other => panic!("expected a draw, got {other:?}"),
    }
}

#[test]
fn detached_canvas_ends_loop() {
    let mut s = SurfaceSession::new(CloudOptions::default(), no_uniforms(), 300, 150);
    let p = PointerTracker::new();
    let mut input = frame(0, 100, 100, 1000);
    input.connected = false;
    input.stop_requested = true;
    assert_eq!(s.tick(&input, &p), FrameOutcome::Stop { clear_stop_flag: false });
    assert!(!s.running);
    // an ended loop stays ended
    assert_eq!(s.tick(&frame(0, 100, 100, 1000), &p), FrameOutcome::Stop { clear_stop_flag: false });
    assert!(!s.running);
    assert_eq!((s.pixel_width, s.pixel_height), (300, 150));
}

#[test]
fn stop_sentinel_ends_loop_and_is_cleared() {
    let mut set = SurfaceSet::new();
    let p = PointerTracker::new();
    set.mount(Ok(SurfaceSession::new(CloudOptions::default(), no_uniforms(), 300, 150))).unwrap();
    set.mount(Ok(SurfaceSession::new(CloudOptions::default(), no_uniforms(), 300, 150))).unwrap();
    let mut input = frame(0, 100, 100, 1000);
    input.stop_requested = true;
    assert_eq!(set.tick_surface(1, &input, &p), FrameOutcome::Stop { clear_stop_flag: true });
    assert!(set.sessions[0].running);
    assert!(!set.sessions[1].running);
    assert_eq!(set.running_count(), 1);
}
