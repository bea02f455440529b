use vstd::prelude::*;

verus! {

/// Cycles of the 2 MHz clock in one millisecond.
pub const CYCLES_PER_MS: usize = 2000;

/// Cycles in one 20 ms interval.
pub const CYCLES_PER_INTERVAL: usize = 40000;

/// Counts cycles and tells when a 20 ms interval has passed.
pub struct Timer {
    elapsed_cycles: usize,
}

impl View for Timer {
    type V = nat;

    closed spec fn view(&self) -> nat {
        self.elapsed_cycles as nat
    }
}

impl Timer {
    pub open spec fn wf(&self) -> bool {
        self@ < CYCLES_PER_INTERVAL
    }

    pub fn new() -> (t: Timer)
        ensures
            t@ == 0,
            t.wf(),
    {
        Timer { elapsed_cycles: 0 }
    }

    /// Counts `cycles` more; true when that completes an interval, and then
    /// only what is left over the last interval stays counted.
    pub fn step(&mut self, cycles: usize) -> (done: bool)
        requires
            old(self).wf(),
            cycles <= usize::MAX - CYCLES_PER_INTERVAL,
        ensures
            final(self).wf(),
            done == (old(self)@ + cycles >= CYCLES_PER_INTERVAL),
            final(self)@ == (old(self)@ + cycles) % (CYCLES_PER_INTERVAL as int),
    {
        self.elapsed_cycles = self.elapsed_cycles + cycles;
        if self.elapsed_cycles >= CYCLES_PER_INTERVAL {
            self.elapsed_cycles = self.elapsed_cycles % CYCLES_PER_INTERVAL;
            return true;
        }
        false
    }
}

} // verus!
