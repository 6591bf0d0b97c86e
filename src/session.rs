//! A render run as a state machine. The host performs each requested step with
//! the graphics API and reports its outcome; the session decides what comes
//! next. Setup runs once, in order (compile both stages, link, build the
//! offscreen target, locate the two uniforms), then one step per frame, in
//! increasing frame order, until every frame is written or the first failure.

use vstd::prelude::*;
use crate::error::{OutputFault, RenderError, ShaderStage, UniformSlot};
use crate::schedule::{FrameTime, RenderSchedule};
use crate::stages::{compile_outcome, link_outcome, target_outcome, uniform_outcome, FRAMEBUFFER_COMPLETE};

verus! {

/// Where a run stands.
#[derive(Debug)]
pub enum Phase {
    CompileVertex,
    CompileFragment,
    Link,
    BuildTarget,
    LocateResolution,
    LocateTime,
    /// Frames `0..next` are written; frame `next` is pending.
    Rendering { next: u64 },
    /// Every frame is written.
    Done,
    /// The run ended on its first failure.
    Failed(RenderError),
}

/// Everything the host needs to render and write one frame.
#[derive(Clone, Copy, Debug, PartialEq, Eq, Structural)]
pub struct FrameRequest {
    pub index: u64,
    /// The value of the time uniform: `index / fps` seconds.
    pub time: FrameTime,
    /// The value of the resolution uniform, and the viewport and readback size.
    pub width: u32,
    pub height: u32,
    pub time_location: i32,
    pub resolution_location: i32,
}

/// What the host is asked to do next.
#[derive(Clone, Copy, Debug, PartialEq, Eq, Structural)]
pub enum Step {
    /// Compile `stage`: the fixed vertex source, or the user's fragment source.
    CompileShader { stage: ShaderStage },
    /// Link the two compiled stages and make the program current.
    LinkProgram,
    /// Create the offscreen framebuffer with an RGB8 texture of this size and
    /// query its completeness.
    BuildTarget { width: u32, height: u32 },
    /// Look up the location of the uniform of `slot` in the linked program.
    LocateUniform { slot: UniformSlot },
    /// Set the uniforms, clear, draw the full-screen quad, read the pixels back
    /// into the run's buffer and write the whole buffer to the output.
    RenderFrame(FrameRequest),
    /// Nothing is left: the run is over.
    Stop,
}

/// The outcome of a step, as the host saw it.
#[derive(Debug)]
pub enum Report {
    Compiled { stage: ShaderStage, compiled: bool, log: String },
    Linked { linked: bool, log: String },
    TargetBuilt { status: u32 },
    UniformLocated { slot: UniformSlot, location: i32 },
    /// The output took `written` bytes of the frame.
    FrameWritten { written: usize },
    /// A graphics call or the output failed while the step was performed.
    CallFailed(RenderError),
}

/// The state of a run, as contracts see it.
pub struct SessionState {
    pub schedule: RenderSchedule,
    pub phase: Phase,
    pub frames_written: u64,
    pub time_location: i32,
    pub resolution_location: i32,
}

impl SessionState {
    pub open spec fn start(schedule: RenderSchedule) -> SessionState {
        SessionState {
            schedule,
            phase: Phase::CompileVertex,
            frames_written: 0,
            time_location: -1i32,
            resolution_location: -1i32,
        }
    }

    pub open spec fn is_over(self) -> bool {
        self.phase is Done || self.phase is Failed
    }

    /// Bytes written to the output so far.
    pub open spec fn output_len(self) -> int {
        self.frames_written * self.schedule.frame_bytes()
    }

    pub open spec fn wf(self) -> bool {
        &&& self.schedule.wf()
        &&& match self.phase {
            Phase::Rendering { next } => {
                &&& next < self.schedule.frame_count()
                &&& self.frames_written == next
                &&& self.time_location >= 0
                &&& self.resolution_location >= 0
            },
            Phase::LocateTime => self.frames_written == 0 && self.resolution_location >= 0,
            Phase::Done => self.frames_written == self.schedule.frame_count(),
            Phase::Failed(_) => self.frames_written <= self.schedule.frame_count(),
            _ => self.frames_written == 0,
        }
    }

    pub open spec fn fail(self, e: RenderError) -> SessionState {
        SessionState { phase: Phase::Failed(e), ..self }
    }

    pub open spec fn step(self) -> Step {
        match self.phase {
            Phase::CompileVertex => Step::CompileShader { stage: ShaderStage::Vertex },
            Phase::CompileFragment => Step::CompileShader { stage: ShaderStage::Fragment },
            Phase::Link => Step::LinkProgram,
            Phase::BuildTarget => Step::BuildTarget {
                width: self.schedule.width,
                height: self.schedule.height,
            },
            Phase::LocateResolution => Step::LocateUniform { slot: UniformSlot::Resolution },
            Phase::LocateTime => Step::LocateUniform { slot: UniformSlot::Time },
            Phase::Rendering { next } => Step::RenderFrame(
                FrameRequest {
                    index: next,
                    time: FrameTime { frame: next, fps: self.schedule.fps },
                    width: self.schedule.width,
                    height: self.schedule.height,
                    time_location: self.time_location,
                    resolution_location: self.resolution_location,
                },
            ),
            Phase::Done => Step::Stop,
            Phase::Failed(_) => Step::Stop,
        }
    }

    /// The phase after the last setup step: the first frame, or the end when
    /// the schedule has no frames.
    pub open spec fn first_frame_phase(self) -> Phase {
        if self.schedule.frame_count() == 0 {
            Phase::Done
        } else {
            Phase::Rendering { next: 0 }
        }
    }

    /// The state after `report`. A finished run ignores reports; a failure
    /// reported by the host ends the run with it; a report that answers no
    /// pending step ends the run with `OutOfSequence`.
    pub open spec fn after(self, report: Report) -> SessionState {
        if self.is_over() {
            self
        } else {
            match report {
                Report::CallFailed(e) => self.fail(e),
                Report::Compiled { stage, compiled, log } => {
                    if self.phase is CompileVertex && stage == ShaderStage::Vertex {
                        if compiled {
                            SessionState { phase: Phase::CompileFragment, ..self }
                        } else {
                            self.fail(RenderError::Compile { stage, log })
                        }
                    } else if self.phase is CompileFragment && stage == ShaderStage::Fragment {
                        if compiled {
                            SessionState { phase: Phase::Link, ..self }
                        } else {
                            self.fail(RenderError::Compile { stage, log })
                        }
                    } else {
                        self.fail(RenderError::OutOfSequence)
                    }
                },
                Report::Linked { linked, log } => {
                    if self.phase is Link {
                        if linked {
                            SessionState { phase: Phase::BuildTarget, ..self }
                        } else {
                            self.fail(RenderError::Link { log })
                        }
                    } else {
                        self.fail(RenderError::OutOfSequence)
                    }
                },
                Report::TargetBuilt { status } => {
                    if self.phase is BuildTarget {
                        if status == FRAMEBUFFER_COMPLETE {
                            SessionState { phase: Phase::LocateResolution, ..self }
                        } else {
                            self.fail(RenderError::IncompleteTarget { status })
                        }
                    } else {
                        self.fail(RenderError::OutOfSequence)
                    }
                },
                Report::UniformLocated { slot, location } => {
                    if self.phase is LocateResolution && slot == UniformSlot::Resolution {
                        if location >= 0 {
                            SessionState {
                                phase: Phase::LocateTime,
                                resolution_location: location,
                                ..self
                            }
                        } else {
                            self.fail(RenderError::UniformNotFound { slot })
                        }
                    } else if self.phase is LocateTime && slot == UniformSlot::Time {
                        if location >= 0 {
                            SessionState {
                                phase: self.first_frame_phase(),
                                time_location: location,
                                ..self
                            }
                        } else {
                            self.fail(RenderError::UniformNotFound { slot })
                        }
                    } else {
                        self.fail(RenderError::OutOfSequence)
                    }
                },
                Report::FrameWritten { written } => {
                    match self.phase {
                        Phase::Rendering { next } => {
                            if written == self.schedule.frame_bytes() {
                                SessionState {
                                    phase: if next + 1 == self.schedule.frame_count() {
                                        Phase::Done
                                    } else {
                                        Phase::Rendering { next: (next + 1) as u64 }
                                    },
                                    frames_written: (self.frames_written + 1) as u64,
                                    ..self
                                }
                            } else {
                                self.fail(
                                    RenderError::Output(
                                        OutputFault::ShortWrite {
                                            written,
                                            expected: self.schedule.frame_bytes() as usize,
                                        },
                                    ),
                                )
                            }
                        },
                        _ => self.fail(RenderError::OutOfSequence),
                    }
                },
            }
        }
    }
}

/// Every report keeps a run's state well formed: frames are only counted while
/// rendering, never beyond the schedule's frame count; the schedule never changes.
pub proof fn lemma_after_preserves_wf(s: SessionState, report: Report)
    requires
        s.wf(),
    ensures
        s.after(report).wf(),
        s.after(report).schedule == s.schedule,
{
    s.schedule.lemma_frame_count_fits();
}

/// A render run in progress.
pub struct Session {
    state: SessionState,
}

impl View for Session {
    type V = SessionState;

    closed spec fn view(&self) -> SessionState {
        self.state
    }
}

impl Session {
    /// Validates the parameters and starts a run at its first step.
    pub fn new(width: u32, height: u32, fps: u32, duration: u32) -> (r: Result<Session, RenderError>)
        ensures
            ({
                let s = RenderSchedule { width, height, fps, duration };
                &&& r is Ok <==> s.wf()
                &&& r matches Ok(session) ==> session@ == SessionState::start(s) && session@.wf()
                &&& s.fault() matches Some(f) ==> (r matches Err(RenderError::Setup(g)) && g == f)
            }),
    {
        let schedule = RenderSchedule::new(width, height, fps, duration)?;
        Ok(
            Session {
                state: SessionState {
                    schedule,
                    phase: Phase::CompileVertex,
                    frames_written: 0,
                    time_location: -1,
                    resolution_location: -1,
                },
            },
        )
    }

    pub fn schedule(&self) -> (r: RenderSchedule)
        ensures
            r == self@.schedule,
    {
        self.state.schedule
    }

    pub fn frames_written(&self) -> (r: u64)
        ensures
            r == self@.frames_written,
    {
        self.state.frames_written
    }

    pub fn is_over(&self) -> (r: bool)
        ensures
            r == self@.is_over(),
    {
        match self.state.phase {
            Phase::Done => true,
            Phase::Failed(_) => true,
            _ => false,
        }
    }

    /// What the host is to do next.
    pub fn next_step(&self) -> (r: Step)
        requires
            self@.wf(),
        ensures
            r == self@.step(),
    {
        let sched = self.state.schedule;
        match self.state.phase {
            Phase::CompileVertex => Step::CompileShader { stage: ShaderStage::Vertex },
            Phase::CompileFragment => Step::CompileShader { stage: ShaderStage::Fragment },
            Phase::Link => Step::LinkProgram,
            Phase::BuildTarget => Step::BuildTarget { width: sched.width, height: sched.height },
            Phase::LocateResolution => Step::LocateUniform { slot: UniformSlot::Resolution },
            Phase::LocateTime => Step::LocateUniform { slot: UniformSlot::Time },
            Phase::Rendering { next } => Step::RenderFrame(
                FrameRequest {
                    index: next,
                    time: sched.frame_time(next),
                    width: sched.width,
                    height: sched.height,
                    time_location: self.state.time_location,
                    resolution_location: self.state.resolution_location,
                },
            ),
            Phase::Done => Step::Stop,
            Phase::Failed(_) => Step::Stop,
        }
    }

    fn fail(&mut self, e: RenderError)
        ensures
            final(self)@ == old(self)@.fail(e),
    {
        self.state.phase = Phase::Failed(e);
    }

    /// Takes the outcome of the pending step.
    pub fn advance(&mut self, report: Report)
        requires
            old(self)@.wf(),
        ensures
            final(self)@ == old(self)@.after(report),
            final(self)@.wf(),
    {
        proof {
            lemma_after_preserves_wf(self@, report);
        }
        if self.is_over() {
            return ;
        }
        match report {
            Report::CallFailed(e) => self.fail(e),
            Report::Compiled { stage, compiled, log } => {
                let pending = match self.state.phase {
                    Phase::CompileVertex => stage == ShaderStage::Vertex,
                    Phase::CompileFragment => stage == ShaderStage::Fragment,
                    _ => false,
                };
                if !pending {
                    self.fail(RenderError::OutOfSequence);
                } else {
                    match compile_outcome(stage, compiled, log) {
                        Ok(()) => {
                            self.state.phase = match stage {
                                ShaderStage::Vertex => Phase::CompileFragment,
                                ShaderStage::Fragment => Phase::Link,
                            };
                        },
                        Err(e) => self.fail(e),
                    }
                }
            },
            Report::Linked { linked, log } => {
                if let Phase::Link = self.state.phase {
                    match link_outcome(linked, log) {
                        Ok(()) => self.state.phase = Phase::BuildTarget,
                        Err(e) => self.fail(e),
                    }
                } else {
                    self.fail(RenderError::OutOfSequence);
                }
            },
            Report::TargetBuilt { status } => {
                if let Phase::BuildTarget = self.state.phase {
                    match target_outcome(status) {
                        Ok(()) => self.state.phase = Phase::LocateResolution,
                        Err(e) => self.fail(e),
                    }
                } else {
                    self.fail(RenderError::OutOfSequence);
                }
            },
            Report::UniformLocated { slot, location } => {
                let pending = match self.state.phase {
                    Phase::LocateResolution => slot == UniformSlot::Resolution,
                    Phase::LocateTime => slot == UniformSlot::Time,
                    _ => false,
                };
                if !pending {
                    self.fail(RenderError::OutOfSequence);
                } else {
                    match uniform_outcome(slot, location) {
                        Ok(loc) => {
                            match slot {
                                UniformSlot::Resolution => {
                                    self.state.resolution_location = loc;
                                    self.state.phase = Phase::LocateTime;
                                },
                                UniformSlot::Time => {
                                    self.state.time_location = loc;
                                    self.state.phase = if self.state.schedule.total_frames() == 0 {
                                        Phase::Done
                                    } else {
                                        Phase::Rendering { next: 0 }
                                    };
                                },
                            }
                        },
                        Err(e) => self.fail(e),
                    }
                }
            },
            Report::FrameWritten { written } => {
                if let Phase::Rendering { next } = self.state.phase {
                    let expected = self.state.schedule.frame_len();
                    if written == expected {
                        let total = self.state.schedule.total_frames();
                        self.state.frames_written = self.state.frames_written + 1;
                        self.state.phase = if next + 1 == total {
                            Phase::Done
                        } else {
                            Phase::Rendering { next: next + 1 }
                        };
                    } else {
                        self.fail(RenderError::Output(OutputFault::ShortWrite { written, expected }));
                    }
                } else {
                    self.fail(RenderError::OutOfSequence);
                }
            },
        }
    }

    /// Closes the run: the number of frames written when every frame was, the
    /// run's failure when it failed, and `OutOfSequence` when it is not over.
    pub fn finish(self) -> (r: Result<u64, RenderError>)
        ensures
            self@.phase is Done ==> r == Ok::<u64, RenderError>(self@.frames_written),
            self@.phase matches Phase::Failed(e) ==> r == Err::<u64, RenderError>(e),
            !self@.is_over() ==> r == Err::<u64, RenderError>(RenderError::OutOfSequence),
    {
        match self.state.phase {
            Phase::Done => Ok(self.state.frames_written),
            Phase::Failed(e) => Err(e),
            _ => Err(RenderError::OutOfSequence),
        }
    }
}

} // verus!
