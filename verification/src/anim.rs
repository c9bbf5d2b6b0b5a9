//! Repeating animation clocks.
//!
//! Each animated entity owns an independent clock: the time elapsed
//! within the current period and the index of the sprite frame shown.
//! When a frame's elapsed time carries the clock past its period, the
//! clock wraps (keeping the remainder) and the frame index advances once
//! modulo the frame count — once per frame even when several periods
//! elapse at once.

use vstd::prelude::*;

verus! {

/// A repeating animation clock.
#[derive(Clone, Copy, Debug, PartialEq, Eq, Structural)]
pub struct Animation {
    /// Milliseconds elapsed within the current period.
    pub elapsed_ms: u32,
    /// Index of the sprite frame currently shown.
    pub frame: usize,
}

impl Animation {
    /// Well-formed for a clock of the given period and frame count.
    pub open spec fn wf(self, period_ms: u32, frame_count: usize) -> bool {
        &&& 0 < period_ms
        &&& 0 < frame_count
        &&& self.elapsed_ms < period_ms
        &&& self.frame < frame_count
    }

    /// The clock after one frame of `dt_ms` elapsed time.
    pub open spec fn spec_ticked(self, period_ms: u32, frame_count: usize, dt_ms: u32) -> Animation {
        let total = self.elapsed_ms + dt_ms;
        if total >= period_ms {
            Animation {
                elapsed_ms: (total % (period_ms as int)) as u32,
                frame: ((self.frame + 1) % (frame_count as int)) as usize,
            }
        } else {
            Animation { elapsed_ms: total as u32, frame: self.frame }
        }
    }

    /// Whether one frame of `dt_ms` completes the current period.
    pub open spec fn spec_completes(self, period_ms: u32, dt_ms: u32) -> bool {
        self.elapsed_ms + dt_ms >= period_ms
    }

    /// A fresh clock: nothing elapsed, first frame shown.
    pub fn new() -> (r: Animation)
        ensures
            r.elapsed_ms == 0,
            r.frame == 0,
    {
        Animation { elapsed_ms: 0, frame: 0 }
    }

    /// Advance the clock by one frame's elapsed time; the result says
    /// whether the period completed, i.e. whether the shown frame
    /// changed and the caller must restyle the sprite.
    pub fn tick(&mut self, period_ms: u32, frame_count: usize, dt_ms: u32) -> (advanced: bool)
        requires
            old(self).wf(period_ms, frame_count),
        ensures
            final(self).wf(period_ms, frame_count),
            *final(self) == old(self).spec_ticked(period_ms, frame_count, dt_ms),
            advanced == old(self).spec_completes(period_ms, dt_ms),
    {
        let total: u64 = self.elapsed_ms as u64 + dt_ms as u64;
        if total >= period_ms as u64 {
            self.elapsed_ms = (total % (period_ms as u64)) as u32;
            self.frame = (self.frame + 1) % frame_count;
            true
        } else {
            self.elapsed_ms = total as u32;
            false
        }
    }
}

} // verus!
