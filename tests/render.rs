use playder::error::{RenderError, ShaderStage, UniformSlot};
use playder::session::{FrameRequest, Report, Session, Step};
use playder::stages::FRAMEBUFFER_COMPLETE;

/// A stand-in for the graphics side: what it reports for each step, and the
/// colour it gives every pixel of a frame.
struct Host {
    compile_ok: bool,
    compile_log: String,
    has_time: bool,
    has_resolution: bool,
    shade: fn(&FrameRequest) -> [u8; 3],
}

/// The conversion of a colour channel to 8 bits: clamp to [0, 1], scale, round.
fn unorm8(x: f32) -> u8 {
    (x.clamp(0.0, 1.0) * 255.0).round() as u8
}

/// `FragColor = vec4(iTime, iResolution.x, iResolution.y, 1.0)`.
fn time_and_resolution(req: &FrameRequest) -> [u8; 3] {
    let t = req.time.frame as f32 / req.time.fps as f32;
    [unorm8(t), unorm8(req.width as f32), unorm8(req.height as f32)]
}

fn flat_grey(_req: &FrameRequest) -> [u8; 3] {
    [128, 128, 128]
}

fn host(shade: fn(&FrameRequest) -> [u8; 3]) -> Host {
    Host {
        compile_ok: true,
        compile_log: String::new(),
        has_time: true,
        has_resolution: true,
        shade,
    }
}

/// Drives a run to its end; returns the output stream, the steps asked for,
/// and the run's result.
fn drive(
    h: &Host,
    width: u32,
    height: u32,
    fps: u32,
    duration: u32,
) -> (Vec<u8>, Vec<Step>, Result<u64, RenderError>) {
    let mut session = Session::new(width, height, fps, duration).expect("valid parameters");
    let mut pixels = session.schedule().pixel_buffer();
    let mut out = Vec::new();
    let mut steps = Vec::new();
    loop {
        let step = session.next_step();
        steps.push(step);
        let report = match step {
            Step::CompileShader { stage } => Report::Compiled {
                stage,
                compiled: stage == ShaderStage::Vertex || h.compile_ok,
                log: if stage == ShaderStage::Fragment { h.compile_log.clone() } else { String::new() },
            },
            Step::LinkProgram => Report::Linked { linked: true, log: String::new() },
            Step::BuildTarget { .. } => Report::TargetBuilt { status: FRAMEBUFFER_COMPLETE },
            Step::LocateUniform { slot } => {
                let present = match slot {
                    UniformSlot::Time => h.has_time,
                    UniformSlot::Resolution => h.has_resolution,
                };
                Report::UniformLocated {
                    slot,
                    location: if present { if slot == UniformSlot::Time { 1 } else { 0 } } else { -1 },
                }
            },
            Step::RenderFrame(req) => {
                let colour = (h.shade)(&req);
                for px in pixels.chunks_mut(3) {
                    px.copy_from_slice(&colour);
                }
                out.extend_from_slice(&pixels);
                Report::FrameWritten { written: pixels.len() }
            },
            Step::Stop => break,
        };
        session.advance(report);
    }
    (out, steps, session.finish())
}

#[test]
fn test_render_1x1_5fps_1sec() {
    let expected_output = vec![
        0, 255, 255,
        51, 255, 255,
        102, 255, 255,
        153, 255, 255,
        204, 255, 255,
    ];
    match drive(&host(time_and_resolution), 1, 1, 5, 1) {
        (output, _, Ok(_)) => assert_eq!(output, expected_output),
        (_, _, Err(err)) => panic!("Test failed with error: {}", err.message()),
    }
}

#[test]
fn test_missing_itime_uniform() {
    let mut h = host(time_and_resolution);
    h.has_time = false;
    match drive(&h, 1, 1, 5, 1) {
        (_, _, Ok(_)) => panic!("Test should have failed due to missing iTime uniform"),
        (out, _, Err(err)) => {
            let msg = err.message();
            assert!(msg.contains("Failed to get uniform location for iTime"), "Unexpected error message: {}", msg);
            assert!(out.is_empty());
        },
    }
}

#[test]
fn test_missing_iresolution_uniform() {
    let mut h = host(time_and_resolution);
    h.has_resolution = false;
    match drive(&h, 1, 1, 5, 1) {
        (_, _, Ok(_)) => panic!("Test should have failed due to missing iResolution uniform"),
        (out, _, Err(err)) => {
            let msg = err.message();
            assert!(msg.contains("Failed to get uniform location for iResolution"), "Unexpected error message: {}", msg);
            assert!(out.is_empty());
        },
    }
}

#[test]
fn output_length_is_whole_stream() {
    let (out, _, r) = drive(&host(time_and_resolution), 2, 3, 4, 2);
    assert_eq!(r.unwrap(), 8);
    assert_eq!(out.len(), 2 * 3 * 3 * 4 * 2);
}

#[test]
fn zero_fps_writes_nothing_and_succeeds() {
    let (out, steps, r) = drive(&host(time_and_resolution), 4, 4, 0, 3);
    assert_eq!(r.unwrap(), 0);
    assert!(out.is_empty());
    assert!(!steps.iter().any(|s| matches!(s, Step::RenderFrame(_))));
}

#[test]
fn zero_duration_writes_nothing_and_succeeds() {
    let (out, _, r) = drive(&host(time_and_resolution), 4, 4, 30, 0);
    assert_eq!(r.unwrap(), 0);
    assert!(out.is_empty());
}

#[test]
fn syntax_error_fails_with_compiler_log() {
    let mut h = host(time_and_resolution);
    h.compile_ok = false;
    h.compile_log = "0:4(9): error: syntax error, unexpected IDENTIFIER".to_string();
    let (out, _, r) = drive(&h, 1, 1, 5, 1);
    assert!(out.is_empty());
    match r {
        Err(RenderError::Compile { stage, log }) => {
            assert_eq!(stage, ShaderStage::Fragment);
            assert_eq!(log, h.compile_log);
            let e = RenderError::Compile { stage, log };
            assert!(e.message().contains("0:4(9): error: syntax error, unexpected IDENTIFIER"));
            assert_eq!(
                e.message(),
                "Shader compilation failed (fragment stage): 0:4(9): error: syntax error, unexpected IDENTIFIER. Check the shader source code for errors."
            );
        },
        other => panic!("expected a compile error, got {:?}", other),
    }
}

#[test]
fn same_inputs_give_same_stream() {
    let a = drive(&host(time_and_resolution), 3, 2, 7, 2);
    let b = drive(&host(time_and_resolution), 3, 2, 7, 2);
    assert_eq!(a.0, b.0);
    assert_eq!(a.1, b.1);
    assert_eq!(a.2.unwrap(), b.2.unwrap());
}

#[test]
fn frames_are_asked_in_order_with_their_time() {
    let (_, steps, _) = drive(&host(time_and_resolution), 1, 1, 5, 2);
    let frames: Vec<FrameRequest> = steps
        .iter()
        .filter_map(|s| if let Step::RenderFrame(r) = s { Some(*r) } else { None })
        .collect();
    assert_eq!(frames.len(), 10);
    for (i, f) in frames.iter().enumerate() {
        assert_eq!(f.index, i as u64);
        assert_eq!(f.time.frame, i as u64);
        assert_eq!(f.time.fps, 5);
        assert_eq!((f.width, f.height), (1, 1));
        assert_eq!((f.time_location, f.resolution_location), (1, 0));
    }
}

#[test]
fn flat_colour_is_a_legal_output() {
    let (out, _, r) = drive(&host(flat_grey), 2, 2, 3, 1);
    assert_eq!(r.unwrap(), 3);
    assert_eq!(out, vec![128u8; 2 * 2 * 3 * 3]);
}

#[test]
fn setup_steps_come_in_order() {
    let (_, steps, _) = drive(&host(time_and_resolution), 2, 1, 1, 1);
    assert_eq!(
        steps,
        vec![
            Step::CompileShader { stage: ShaderStage::Vertex },
            Step::CompileShader { stage: ShaderStage::Fragment },
            Step::LinkProgram,
            Step::BuildTarget { width: 2, height: 1 },
            Step::LocateUniform { slot: UniformSlot::Resolution },
            Step::LocateUniform { slot: UniformSlot::Time },
            steps[6],
            Step::Stop,
        ]
    );
    assert!(matches!(steps[6], Step::RenderFrame(_)));
}
