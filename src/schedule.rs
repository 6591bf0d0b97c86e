//! The shape of a render: resolution, frame rate and length, and what follows
//! from them (frame count, bytes per frame, the time of each frame).

use vstd::prelude::*;
use crate::error::{RenderError, SetupFault};

verus! {

/// The largest side a graphics API's signed size can hold.
pub const MAX_SIDE: u32 = 0x7fff_ffff;

/// Bytes per pixel of the output: tightly packed 8-bit RGB.
pub const BYTES_PER_PIXEL: u32 = 3;

/// A render's parameters. Valid ones (see `wf`) come from `RenderSchedule::new`.
#[derive(Clone, Copy, Debug, PartialEq, Eq, Structural)]
pub struct RenderSchedule {
    pub width: u32,
    pub height: u32,
    pub fps: u32,
    pub duration: u32,
}

/// The simulated time of a frame, `frame / fps` seconds, kept exact.
#[derive(Clone, Copy, Debug, PartialEq, Eq, Structural)]
pub struct FrameTime {
    pub frame: u64,
    pub fps: u32,
}

impl FrameTime {
    /// Seconds as an exact fraction: numerator and denominator.
    pub open spec fn seconds(self) -> (int, int) {
        (self.frame as int, self.fps as int)
    }
}

impl RenderSchedule {
    pub open spec fn frame_bytes(self) -> int {
        self.width * self.height * 3
    }

    pub open spec fn frame_count(self) -> int {
        self.fps * self.duration
    }

    /// Exactly the bytes a complete run writes.
    pub open spec fn stream_bytes(self) -> int {
        self.width * self.height * 3 * self.fps * self.duration
    }

    pub open spec fn wf(self) -> bool {
        &&& 0 < self.width <= MAX_SIDE
        &&& 0 < self.height <= MAX_SIDE
        &&& self.frame_bytes() <= usize::MAX
    }

    /// The fault that `new` reports for these parameters, if any, in the order
    /// in which they are checked.
    pub open spec fn fault(self) -> Option<SetupFault> {
        if self.width == 0 {
            Some(SetupFault::ZeroWidth)
        } else if self.height == 0 {
            Some(SetupFault::ZeroHeight)
        } else if self.width > MAX_SIDE || self.height > MAX_SIDE {
            Some(SetupFault::DimensionTooLarge)
        } else if self.frame_bytes() > usize::MAX {
            Some(SetupFault::FrameTooLarge)
        } else {
            None
        }
    }

    pub proof fn lemma_frame_count_fits(self)
        ensures
            0 <= self.frame_count() <= u64::MAX,
    {
        assert(self.fps * self.duration <= u32::MAX * u32::MAX) by (nonlinear_arith)
            requires
                self.fps <= u32::MAX,
                self.duration <= u32::MAX,
        ;
    }

    /// Validates a render's parameters. A frame rate or a length of zero is
    /// valid: such a render has no frames.
    pub fn new(width: u32, height: u32, fps: u32, duration: u32) -> (r: Result<
        RenderSchedule,
        RenderError,
    >)
        ensures
            ({
                let s = RenderSchedule { width, height, fps, duration };
                &&& s.fault() is None <==> s.wf()
                &&& s.fault() is None ==> r == Ok::<RenderSchedule, RenderError>(s)
                &&& s.fault() matches Some(f) ==> (r matches Err(RenderError::Setup(g)) && g == f)
            }),
    {
        let s = RenderSchedule { width, height, fps, duration };
        if width == 0 {
            return Err(RenderError::Setup(SetupFault::ZeroWidth));
        }
        if height == 0 {
            return Err(RenderError::Setup(SetupFault::ZeroHeight));
        }
        if width > MAX_SIDE || height > MAX_SIDE {
            return Err(RenderError::Setup(SetupFault::DimensionTooLarge));
        }
        assert(width * height * 3 <= MAX_SIDE * MAX_SIDE * 3) by (nonlinear_arith)
            requires
                width <= MAX_SIDE,
                height <= MAX_SIDE,
        ;
        let bytes: u64 = width as u64 * height as u64 * BYTES_PER_PIXEL as u64;
        if bytes > usize::MAX as u64 {
            return Err(RenderError::Setup(SetupFault::FrameTooLarge));
        }
        Ok(s)
    }

    /// Number of frames: `fps * duration`.
    pub fn total_frames(&self) -> (r: u64)
        ensures
            r == self.frame_count(),
    {
        proof {
            self.lemma_frame_count_fits();
        }
        self.fps as u64 * self.duration as u64
    }

    /// Bytes in one frame: `width * height * 3`.
    pub fn frame_len(&self) -> (r: usize)
        requires
            self.wf(),
        ensures
            r == self.frame_bytes(),
    {
        assert(self.width * self.height * 3 <= MAX_SIDE * MAX_SIDE * 3) by (nonlinear_arith)
            requires
                self.width <= MAX_SIDE,
                self.height <= MAX_SIDE,
        ;
        (self.width as u64 * self.height as u64 * BYTES_PER_PIXEL as u64) as usize
    }

    /// The simulated time of frame `frame`: `frame / fps` seconds.
    pub fn frame_time(&self, frame: u64) -> (r: FrameTime)
        ensures
            r.seconds() == (frame as int, self.fps as int),
    {
        FrameTime { frame, fps: self.fps }
    }

    /// The pixel buffer of a run, allocated once and reused by every frame:
    /// one frame's bytes, zeroed.
    pub fn pixel_buffer(&self) -> (r: Vec<u8>)
        requires
            self.wf(),
        ensures
            r@.len() == self.frame_bytes(),
            forall|i: int| 0 <= i < r@.len() ==> r@[i] == 0,
    {
        vec![0u8; self.frame_len()]
    }
}

} // verus!
