//! The frame-rate capper: the sleep that keeps the loop at its target rate,
//! and the rate each frame actually reached.
use vstd::prelude::*;

verus! {

/// The frame budget in milliseconds for a target rate; no budget for `0`
/// (uncapped).
pub open spec fn ms_per_frame_for(fps_limit: u32) -> u32 {
    if fps_limit > 0 {
        (1000int / fps_limit as int) as u32
    } else {
        0
    }
}

/// The rate a frame of `last_frame_ms` milliseconds ran at; a frame under one
/// millisecond counts as 1000 frames per second.
pub open spec fn measured_fps(last_frame_ms: u32) -> u32 {
    if last_frame_ms > 0 {
        (1000int / last_frame_ms as int) as u32
    } else {
        1000
    }
}

/// A frame came in under its budget: the loop sleeps out the rest.
pub open spec fn under_budget(fps_limit: u32, ms_per_frame: u32, last_frame_ms: u32) -> bool {
    fps_limit > 0 && last_frame_ms < ms_per_frame
}

/// Tracks the target rate and the rate achieved by the last frame.
#[derive(Clone, Copy, Debug, PartialEq, Eq, Structural)]
pub struct FPSCapper {
    /// The rate the last frame achieved.
    pub fps: u32,
    /// The target rate; `0` leaves the loop uncapped.
    pub fps_limit: u32,
    /// The frame budget that `fps_limit` gives.
    pub ms_per_frame: u32,
}

impl FPSCapper {
    /// The budget matches the target rate.
    pub open spec fn wf(self) -> bool {
        self.ms_per_frame == ms_per_frame_for(self.fps_limit)
    }

    /// A capper aiming at `fps_limit`, which it also reports until the first
    /// frame is measured.
    pub fn new(fps_limit: u32) -> (c: FPSCapper)
        ensures
            c.wf(),
            c.fps == fps_limit,
            c.fps_limit == fps_limit,
    {
        let ms_per_frame: u32 = if fps_limit > 0 {
            1000 / fps_limit
        } else {
            0
        };
        FPSCapper { fps: fps_limit, fps_limit, ms_per_frame }
    }

    /// Sets a new target rate (`0`: uncapped), from the next frame on.
    pub fn set(&mut self, fps_limit: u32) -> (r: &mut Self)
        ensures
            (*r).wf(),
            (*r).fps_limit == fps_limit,
            (*r).fps == old(self).fps,
            *final(self) == *final(r),
    {
        self.fps_limit = fps_limit;
        self.ms_per_frame = if fps_limit > 0 {
            1000 / fps_limit
        } else {
            0
        };
        self
    }

    /// Takes the length of the frame just finished and returns how long to
    /// sleep before the next one. Under budget, the loop sleeps out the rest
    /// of the budget and the frame counts as running at the target rate;
    /// otherwise there is no sleep and the rate is the one measured.
    pub fn cap(&mut self, last_frame_ms: u32) -> (sleep_ms: u32)
        ensures
            final(self).fps_limit == old(self).fps_limit,
            final(self).ms_per_frame == old(self).ms_per_frame,
            under_budget(old(self).fps_limit, old(self).ms_per_frame, last_frame_ms) ==> {
                &&& sleep_ms == old(self).ms_per_frame - last_frame_ms
                &&& final(self).fps == old(self).fps_limit
            },
            !under_budget(old(self).fps_limit, old(self).ms_per_frame, last_frame_ms) ==> {
                &&& sleep_ms == 0
                &&& final(self).fps == measured_fps(last_frame_ms)
            },
    {
        if self.fps_limit > 0 && last_frame_ms < self.ms_per_frame {
            self.fps = self.fps_limit;
            self.ms_per_frame - last_frame_ms
        } else {
            self.fps = if last_frame_ms > 0 {
                1000 / last_frame_ms
            } else {
                1000
            };
            0
        }
    }
}

} // verus!
