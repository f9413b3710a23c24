//! A repeating interval timer, advanced once per frame by the elapsed
//! wall-clock delta in milliseconds; it reports a tick whenever the
//! accumulated time crosses the interval.

use vstd::prelude::*;

verus! {

/// A repeating timer: `accumulated_ms` grows by each frame's delta and wraps
/// modulo `interval_ms` when the interval elapses.
pub struct TickTimer {
    pub interval_ms: u64,
    pub accumulated_ms: u64,
}

impl TickTimer {
    /// Well-formedness: the interval is positive and the accumulated time has
    /// not yet reached it.
    pub open spec fn wf(self) -> bool {
        0 < self.interval_ms && self.accumulated_ms < self.interval_ms
    }

    /// Create a repeating timer with the given interval.
    pub fn new(interval_ms: u64) -> (t: TickTimer)
        requires
            interval_ms > 0,
        ensures
            t.wf(),
            t.interval_ms == interval_ms,
            t.accumulated_ms == 0,
    {
        TickTimer { interval_ms, accumulated_ms: 0 }
    }

    /// Advance by one frame's delta; report whether the interval elapsed.
    /// Overshoot past further whole intervals is folded into the remainder,
    /// so one call reports at most one tick.
    pub fn tick(&mut self, delta_ms: u64) -> (finished: bool)
        requires
            old(self).wf(),
            delta_ms <= u64::MAX - old(self).accumulated_ms,
        ensures
            final(self).wf(),
            final(self).interval_ms == old(self).interval_ms,
            finished == (old(self).accumulated_ms + delta_ms >= old(self).interval_ms),
            final(self).accumulated_ms == (old(self).accumulated_ms + delta_ms) % (
            old(self).interval_ms as int),
    {
        let total = self.accumulated_ms + delta_ms;
        let finished = total >= self.interval_ms;
        self.accumulated_ms = total % self.interval_ms;
        finished
    }
}

} // verus!
