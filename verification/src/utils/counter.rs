//! Counts frames between two reports of the frame time.

use crate::utils::float_bits::F32_ONE;
use vstd::prelude::*;

verus! {

/// Single precision positive infinity: the largest pattern of a number that
/// is not negative.
pub const F32_INFINITY: u32 = 0x7F80_0000;

/// What a report of the frame time is made of.
#[derive(Clone, Copy, Debug, PartialEq, Eq, Structural)]
pub struct FrameReport {
    /// Seconds since the last report, a single-precision number.
    pub elapsed_secs: u32,
    /// Frames since the last report.
    pub frame_count: u32,
}

#[derive(Debug)]
pub struct FrameCounter {
    /// Number of frames since the last report.
    frame_count: u32,
}

/// Whether a time in seconds is more than one second. Of two numbers that are
/// not negative, the larger has the larger pattern.
pub open spec fn is_due(elapsed_secs: u32) -> bool {
    elapsed_secs > F32_ONE
}

impl FrameCounter {
    /// Frames counted since the last report.
    pub closed spec fn spec_frames(&self) -> u32 {
        self.frame_count
    }

    /// Frames counted since the last report.
    #[verifier::when_used_as_spec(spec_frames)]
    pub fn frames(&self) -> (frames: u32)
        ensures
            frames == self.spec_frames(),
    {
        self.frame_count
    }

    /// A counter that has counted no frame.
    pub fn new() -> (counter: FrameCounter)
        ensures
            counter.frames() == 0,
    {
        FrameCounter { frame_count: 0 }
    }

    /// Counts a frame. `elapsed_secs` is the time since the last report, in
    /// seconds, as a single-precision number that is not negative. Once it is
    /// more than a second, the frames counted are reported and the count
    /// starts again at zero.
    pub fn update(&mut self, elapsed_secs: u32) -> (report: Option<FrameReport>)
        requires
            old(self).frames() < u32::MAX,
            elapsed_secs <= F32_INFINITY,
        ensures
            report == if is_due(elapsed_secs) {
                Some(FrameReport { elapsed_secs, frame_count: (old(self).frames() + 1) as u32 })
            } else {
                None::<FrameReport>
            },
            final(self).frames() == if is_due(elapsed_secs) {
                0
            } else {
                old(self).frames() + 1
            },
    {
        self.frame_count += 1;
        if elapsed_secs > F32_ONE {
            let report = FrameReport { elapsed_secs, frame_count: self.frame_count };
            self.frame_count = 0;
            Some(report)
        } else {
            None
        }
    }
}

} // verus!
