//! A repeating countdown measured in milliseconds.
use vstd::prelude::*;

verus! {

/// A repeating timer: it fires each time `duration_ms` has elapsed.
#[derive(Clone, Copy, Debug, PartialEq, Eq, Structural)]
pub struct Timer {
    pub elapsed_ms: u32,
    pub duration_ms: u32,
}

impl Timer {
    /// A positive period, with less than one period elapsed.
    pub open spec fn wf(self) -> bool {
        0 < self.duration_ms && self.elapsed_ms < self.duration_ms
    }

    /// A fresh timer with the given period.
    pub fn from_millis(duration_ms: u32) -> (r: Timer)
        requires
            duration_ms > 0,
        ensures
            r.wf(),
            r.elapsed_ms == 0,
            r.duration_ms == duration_ms,
    {
        Timer { elapsed_ms: 0, duration_ms }
    }

    /// Lets `delta_ms` pass. Returns whether the timer completed a period;
    /// the time past the last completion carries over.
    pub fn tick(&mut self, delta_ms: u32) -> (fired: bool)
        requires
            old(self).wf(),
        ensures
            final(self).wf(),
            final(self).duration_ms == old(self).duration_ms,
            fired == (old(self).elapsed_ms + delta_ms >= old(self).duration_ms),
            final(self).elapsed_ms == (old(self).elapsed_ms + delta_ms) % (
            old(self).duration_ms as int),
    {
        let total: u64 = self.elapsed_ms as u64 + delta_ms as u64;
        let d: u64 = self.duration_ms as u64;
        self.elapsed_ms = (total % d) as u32;
        total >= d
    }
}

} // verus!
