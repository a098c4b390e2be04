//! The shared animation clock: elapsed time integrated from frame timestamps,
//! with every step clamped so that a long pause never makes motion jump.
use vstd::prelude::*;

verus! {

/// Largest advance of the clock in one frame, in microseconds.
pub const MAX_FRAME_DELTA_US: u64 = 50_000;

/// The advance owed for a frame at `now_us` after one at `last_us`:
/// the gap between them, clamped to `[0, MAX_FRAME_DELTA_US]`.
pub open spec fn frame_delta(last_us: u64, now_us: u64) -> int {
    if now_us <= last_us {
        0
    } else if now_us - last_us >= MAX_FRAME_DELTA_US {
        MAX_FRAME_DELTA_US as int
    } else {
        now_us - last_us
    }
}

/// Elapsed time after adding `delta`, held at `u64::MAX` rather than wrapping.
pub open spec fn advanced(elapsed_us: u64, delta: int) -> int {
    if elapsed_us + delta > u64::MAX {
        u64::MAX as int
    } else {
        elapsed_us + delta
    }
}

/// Monotonic elapsed time, advanced once per scheduled frame.
pub struct AnimationClock {
    /// Timestamp of the last frame seen, in microseconds of the host clock.
    pub last_timestamp_us: u64,
    /// Integrated animation time, in microseconds.
    pub elapsed_us: u64,
}

impl AnimationClock {
    /// A clock at zero elapsed time whose first frame is measured from `now_us`.
    pub fn new(now_us: u64) -> (c: Self)
        ensures
            c.last_timestamp_us == now_us,
            c.elapsed_us == 0,
    {
        AnimationClock { last_timestamp_us: now_us, elapsed_us: 0 }
    }

    /// Records a frame at `now_us` and returns the advance it earned.
    /// The clock never runs backward, even when the host clock does.
    pub fn tick(&mut self, now_us: u64) -> (delta_us: u64)
        ensures
            delta_us == frame_delta(old(self).last_timestamp_us, now_us),
            final(self).last_timestamp_us == now_us,
            final(self).elapsed_us == advanced(old(self).elapsed_us, delta_us as int),
            final(self).elapsed_us >= old(self).elapsed_us,
            final(self).elapsed_us <= old(self).elapsed_us + MAX_FRAME_DELTA_US,
    {
        let delta_us: u64 = if now_us <= self.last_timestamp_us {
            0
        } else if now_us - self.last_timestamp_us >= MAX_FRAME_DELTA_US {
            MAX_FRAME_DELTA_US
        } else {
            now_us - self.last_timestamp_us
        };
        self.last_timestamp_us = now_us;
        self.elapsed_us = self.elapsed_us.saturating_add(delta_us);
        delta_us
    }

    /// Integrated animation time, in microseconds.
    pub fn elapsed_us(&self) -> (r: u64)
        ensures
            r == self.elapsed_us,
    {
        self.elapsed_us
    }
}

} // verus!
