use playder::error::{OutputFault, RenderError, SetupFault, ShaderStage, UniformSlot};
use playder::session::{Report, Session, Step};
use playder::stages::FRAMEBUFFER_COMPLETE;

fn through_setup(width: u32, height: u32, fps: u32, duration: u32) -> Session {
    let mut s = Session::new(width, height, fps, duration).unwrap();
    s.advance(Report::Compiled { stage: ShaderStage::Vertex, compiled: true, log: String::new() });
    s.advance(Report::Compiled { stage: ShaderStage::Fragment, compiled: true, log: String::new() });
    s.advance(Report::Linked { linked: true, log: String::new() });
    s.advance(Report::TargetBuilt { status: FRAMEBUFFER_COMPLETE });
    s.advance(Report::UniformLocated { slot: UniformSlot::Resolution, location: 2 });
    s.advance(Report::UniformLocated { slot: UniformSlot::Time, location: 3 });
    s
}

#[test]
fn new_rejects_zero_width() {
    match Session::new(0, 4, 30, 1) {
        Err(RenderError::Setup(SetupFault::ZeroWidth)) => {},
        _ => panic!("zero width accepted"),
    }
}

#[test]
fn new_rejects_zero_height() {
    match Session::new(4, 0, 30, 1) {
        Err(e @ RenderError::Setup(SetupFault::ZeroHeight)) => {
            assert_eq!(e.message(), "Invalid height: it must be a positive number of pixels");
        },
        _ => panic!("zero height accepted"),
    }
}

#[test]
fn new_rejects_side_beyond_signed_range() {
    match Session::new(0x8000_0000, 1, 30, 1) {
        Err(RenderError::Setup(SetupFault::DimensionTooLarge)) => {},
        _ => panic!("oversized width accepted"),
    }
}

#[test]
fn link_failure_carries_log() {
    let mut s = Session::new(1, 1, 1, 1).unwrap();
    s.advance(Report::Compiled { stage: ShaderStage::Vertex, compiled: true, log: String::new() });
    s.advance(Report::Compiled { stage: ShaderStage::Fragment, compiled: true, log: String::new() });
    s.advance(Report::Linked { linked: false, log: "error: vertex output not read".to_string() });
    assert_eq!(s.next_step(), Step::Stop);
    let e = s.finish().unwrap_err();
    assert_eq!(
        e.message(),
        "Program linking failed: error: vertex output not read. Verify that all shaders are correctly attached and compiled."
    );
}

#[test]
fn vertex_compile_failure_names_stage() {
    let mut s = Session::new(1, 1, 1, 1).unwrap();
    s.advance(Report::Compiled { stage: ShaderStage::Vertex, compiled: false, log: "bad".to_string() });
    match s.finish() {
        Err(RenderError::Compile { stage: ShaderStage::Vertex, log }) => assert_eq!(log, "bad"),
        other => panic!("unexpected {:?}", other),
    }
}

#[test]
fn incomplete_target_reports_status() {
    let mut s = Session::new(1, 1, 1, 1).unwrap();
    s.advance(Report::Compiled { stage: ShaderStage::Vertex, compiled: true, log: String::new() });
    s.advance(Report::Compiled { stage: ShaderStage::Fragment, compiled: true, log: String::new() });
    s.advance(Report::Linked { linked: true, log: String::new() });
    s.advance(Report::TargetBuilt { status: 0x8CD6 });
    let e = s.finish().unwrap_err();
    assert_eq!(e.message(), "Framebuffer is not complete (status 36054). Check the framebuffer attachments.");
}

#[test]
fn short_write_ends_run() {
    let mut s = through_setup(2, 2, 1, 2);
    s.advance(Report::FrameWritten { written: 12 });
    assert_eq!(s.frames_written(), 1);
    s.advance(Report::FrameWritten { written: 5 });
    assert_eq!(s.frames_written(), 1);
    let e = s.finish().unwrap_err();
    match &e {
        RenderError::Output(OutputFault::ShortWrite { written: 5, expected: 12 }) => {},
        other => panic!("unexpected {:?}", other),
    }
    assert_eq!(e.message(), "Output accepted 5 of the 12 bytes of a frame");
}

#[test]
fn stream_failure_message() {
    let e = RenderError::Output(OutputFault::Stream { detail: "Broken pipe".to_string() });
    assert_eq!(e.message(), "Failed to write a frame: Broken pipe");
}

#[test]
fn host_failure_ends_run_with_it() {
    let mut s = through_setup(1, 1, 2, 1);
    s.advance(Report::CallFailed(RenderError::GraphicsCall { operation: "drawing arrays".to_string(), code: 1282 }));
    assert!(s.is_over());
    s.advance(Report::FrameWritten { written: 3 });
    assert_eq!(s.frames_written(), 0);
    assert_eq!(s.finish().unwrap_err().message(), "OpenGL error code 1282 at \"drawing arrays\"");
}

#[test]
fn report_out_of_sequence_ends_run() {
    let mut s = Session::new(1, 1, 1, 1).unwrap();
    s.advance(Report::Linked { linked: true, log: String::new() });
    match s.finish() {
        Err(RenderError::OutOfSequence) => {},
        other => panic!("unexpected {:?}", other),
    }
}

#[test]
fn wrong_stage_is_out_of_sequence() {
    let mut s = Session::new(1, 1, 1, 1).unwrap();
    s.advance(Report::Compiled { stage: ShaderStage::Fragment, compiled: true, log: String::new() });
    assert!(matches!(s.finish(), Err(RenderError::OutOfSequence)));
}

#[test]
fn finishing_early_is_out_of_sequence() {
    let s = through_setup(1, 1, 1, 1);
    assert!(!s.is_over());
    let e = s.finish().unwrap_err();
    assert_eq!(e.message(), "Render steps were reported out of sequence");
}

#[test]
fn complete_run_counts_frames() {
    let mut s = through_setup(2, 2, 2, 2);
    for i in 0..4u64 {
        match s.next_step() {
            Step::RenderFrame(req) => {
                assert_eq!(req.index, i);
                assert_eq!((req.time_location, req.resolution_location), (3, 2));
            },
            other => panic!("unexpected {:?}", other),
        }
        s.advance(Report::FrameWritten { written: 12 });
    }
    assert_eq!(s.next_step(), Step::Stop);
    assert_eq!(s.finish().unwrap(), 4);
}
