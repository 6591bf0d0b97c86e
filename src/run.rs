//! Whole runs: a session fed a sequence of reports, and what holds of every
//! such run.

use vstd::prelude::*;
use crate::error::{stage_text, RenderError, ShaderStage, UniformSlot};
use crate::schedule::RenderSchedule;
use crate::session::{Phase, Report, SessionState, Step};
use crate::stages::FRAMEBUFFER_COMPLETE;

verus! {

/// The state after each of `reports`, in order, starting from `s`.
pub open spec fn run(s: SessionState, reports: Seq<Report>) -> SessionState
    decreases reports.len(),
{
    if reports.len() == 0 {
        s
    } else {
        run(s, reports.drop_last()).after(reports.last())
    }
}

/// The reports of a setup in which every step succeeds.
pub open spec fn clean_setup(
    vertex_log: String,
    fragment_log: String,
    link_log: String,
    resolution_location: i32,
    time_location: i32,
) -> Seq<Report> {
    seq![
        Report::Compiled { stage: ShaderStage::Vertex, compiled: true, log: vertex_log },
        Report::Compiled { stage: ShaderStage::Fragment, compiled: true, log: fragment_log },
        Report::Linked { linked: true, log: link_log },
        Report::TargetBuilt { status: FRAMEBUFFER_COMPLETE },
        Report::UniformLocated { slot: UniformSlot::Resolution, location: resolution_location },
        Report::UniformLocated { slot: UniformSlot::Time, location: time_location },
    ]
}

/// `needle` occurs in `hay` as a contiguous run.
pub open spec fn contains(hay: Seq<char>, needle: Seq<char>) -> bool {
    exists|k: int|
        0 <= k && k + needle.len() <= hay.len() && #[trigger] hay.subrange(k, k + needle.len())
            == needle
}

/// Every state a run reaches is well formed, and keeps the run's schedule.
pub proof fn lemma_run_wf(s: SessionState, reports: Seq<Report>)
    requires
        s.wf(),
    ensures
        run(s, reports).wf(),
        run(s, reports).schedule == s.schedule,
    decreases reports.len(),
{
    if reports.len() > 0 {
        lemma_run_wf(s, reports.drop_last());
        crate::session::lemma_after_preserves_wf(run(s, reports.drop_last()), reports.last());
    }
}

/// A run that is over stays as it is, whatever is reported after.
pub proof fn lemma_over_is_final(s: SessionState, reports: Seq<Report>)
    requires
        s.is_over(),
    ensures
        run(s, reports) == s,
    decreases reports.len(),
{
    if reports.len() > 0 {
        lemma_over_is_final(s, reports.drop_last());
    }
}

/// Feeding `a` and then `b` is feeding `a + b`.
pub proof fn lemma_run_concat(s: SessionState, a: Seq<Report>, b: Seq<Report>)
    ensures
        run(s, a + b) == run(run(s, a), b),
    decreases b.len(),
{
    if b.len() == 0 {
        assert(a + b =~= a);
    } else {
        assert((a + b).drop_last() =~= a + b.drop_last());
        lemma_run_concat(s, a, b.drop_last());
    }
}

/// A run that completes has written exactly `width * height * 3 * fps * duration`
/// bytes: `fps * duration` frames of one frame's bytes each.
pub proof fn lemma_complete_run_length(schedule: RenderSchedule, reports: Seq<Report>)
    requires
        schedule.wf(),
        run(SessionState::start(schedule), reports).phase is Done,
    ensures
        run(SessionState::start(schedule), reports).frames_written == schedule.frame_count(),
        run(SessionState::start(schedule), reports).output_len() == schedule.stream_bytes(),
{
    lemma_run_wf(SessionState::start(schedule), reports);
    let w = schedule.width as int;
    let h = schedule.height as int;
    let f = schedule.fps as int;
    let d = schedule.duration as int;
    assert((f * d) * (w * h * 3) == w * h * 3 * f * d) by (nonlinear_arith);
}

/// With a frame rate or a length of zero, a setup in which every step succeeds
/// ends the run successfully with no frame, and no run writes any byte.
pub proof fn lemma_frameless_run(
    schedule: RenderSchedule,
    vertex_log: String,
    fragment_log: String,
    link_log: String,
    resolution_location: i32,
    time_location: i32,
    reports: Seq<Report>,
)
    requires
        schedule.wf(),
        schedule.fps == 0 || schedule.duration == 0,
        resolution_location >= 0,
        time_location >= 0,
    ensures
        run(
            SessionState::start(schedule),
            clean_setup(vertex_log, fragment_log, link_log, resolution_location, time_location),
        ).phase is Done,
        run(SessionState::start(schedule), reports).output_len() == 0,
{
    let setup = clean_setup(vertex_log, fragment_log, link_log, resolution_location, time_location);
    let s0 = SessionState::start(schedule);
    assert(schedule.frame_count() == 0) by (nonlinear_arith)
        requires
            schedule.fps == 0 || schedule.duration == 0,
    ;
    reveal_with_fuel(run, 7);
    assert(setup.drop_last().drop_last().drop_last().drop_last().drop_last().drop_last() =~= Seq::<
        Report,
    >::empty());
    assert(run(s0, setup).phase is Done);
    lemma_run_wf(s0, reports);
}

/// A uniform that the program lacks ends the run at its lookup: the run fails
/// with `UniformNotFound` for it, before any frame, and stays so whatever comes
/// after.
pub proof fn lemma_missing_uniform_ends_run(
    schedule: RenderSchedule,
    before: Seq<Report>,
    slot: UniformSlot,
    location: i32,
    after: Seq<Report>,
)
    requires
        schedule.wf(),
        run(SessionState::start(schedule), before).step() == (Step::LocateUniform { slot }),
        location < 0,
    ensures
        ({
            let end = run(
                SessionState::start(schedule),
                before + seq![Report::UniformLocated { slot, location }] + after,
            );
            &&& end.phase == Phase::Failed(RenderError::UniformNotFound { slot })
            &&& end.frames_written == 0
            &&& end.output_len() == 0
        }),
{
    let s0 = SessionState::start(schedule);
    let one = seq![Report::UniformLocated { slot, location }];
    lemma_run_wf(s0, before);
    lemma_run_concat(s0, before + one, after);
    lemma_run_concat(s0, before, one);
    reveal_with_fuel(run, 2);
    assert(one.drop_last() =~= Seq::<Report>::empty());
    let failed = run(s0, before + one);
    assert(failed.phase == Phase::Failed(RenderError::UniformNotFound { slot }));
    lemma_over_is_final(failed, after);
}

/// A shader stage that does not compile ends the run at its compile: the run
/// fails with `Compile` carrying the compiler's log verbatim, whose text holds
/// that log, before any frame, and stays so whatever comes after.
pub proof fn lemma_compile_failure_ends_run(
    schedule: RenderSchedule,
    before: Seq<Report>,
    stage: ShaderStage,
    log: String,
    after: Seq<Report>,
)
    requires
        schedule.wf(),
        run(SessionState::start(schedule), before).step() == (Step::CompileShader { stage }),
    ensures
        ({
            let end = run(
                SessionState::start(schedule),
                before + seq![Report::Compiled { stage, compiled: false, log }] + after,
            );
            &&& end.phase == Phase::Failed(RenderError::Compile { stage, log })
            &&& end.frames_written == 0
            &&& end.output_len() == 0
            &&& contains(RenderError::Compile { stage, log }.text(), log@)
        }),
{
    let s0 = SessionState::start(schedule);
    let one = seq![Report::Compiled { stage, compiled: false, log }];
    lemma_run_wf(s0, before);
    lemma_run_concat(s0, before + one, after);
    lemma_run_concat(s0, before, one);
    reveal_with_fuel(run, 2);
    assert(one.drop_last() =~= Seq::<Report>::empty());
    let failed = run(s0, before + one);
    assert(failed.phase == Phase::Failed(RenderError::Compile { stage, log }));
    lemma_over_is_final(failed, after);
    let head = "Shader compilation failed ("@ + stage_text(stage) + " stage): "@;
    let text = RenderError::Compile { stage, log }.text();
    assert(text.subrange(head.len() as int, (head.len() + log@.len()) as int) =~= log@);
}

/// Frames are asked for one at a time, in increasing order from zero, each
/// with the time `index / fps`: the frame asked for is always the number of
/// frames already written.
pub proof fn lemma_frames_in_order(schedule: RenderSchedule, reports: Seq<Report>)
    requires
        schedule.wf(),
    ensures
        ({
            let s = run(SessionState::start(schedule), reports);
            s.step() matches Step::RenderFrame(req) ==> {
                &&& req.index == s.frames_written
                &&& req.index < schedule.frame_count()
                &&& req.time.seconds() == (req.index as int, schedule.fps as int)
                &&& req.width == schedule.width
                &&& req.height == schedule.height
            }
        }),
{
    lemma_run_wf(SessionState::start(schedule), reports);
}

/// A frame of full length is always taken, whatever its pixels: the run moves
/// on to the next frame, or ends successfully after the last one.
pub proof fn lemma_full_frame_accepted(s: SessionState)
    requires
        s.wf(),
        s.phase is Rendering,
    ensures
        ({
            let t = s.after(Report::FrameWritten { written: s.schedule.frame_bytes() as usize });
            &&& t.frames_written == s.frames_written + 1
            &&& (t.phase is Rendering || t.phase is Done)
        }),
{
    s.schedule.lemma_frame_count_fits();
}

} // verus!
