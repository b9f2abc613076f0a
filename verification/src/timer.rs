//! The tick counter.

use vstd::prelude::*;

verus! {

/// A count of timer ticks.
#[derive(Debug, Clone, Copy, PartialEq, Eq, Structural)]
pub struct Timer {
    value: u64,
}

impl View for Timer {
    type V = nat;

    closed spec fn view(&self) -> nat {
        self.value as nat
    }
}

impl Timer {
    /// A counter that has seen no tick.
    pub fn new() -> (timer: Timer)
        ensures
            timer@ == 0,
    {
        Timer { value: 0 }
    }

    /// Counts one tick. The counter must not be at the end of its range.
    pub fn inc(&mut self)
        requires
            old(self)@ < u64::MAX,
        ensures
            final(self)@ == old(self)@ + 1,
    {
        self.value += 1;
    }

    /// The number of ticks counted.
    pub fn get(&self) -> (ticks: u64)
        ensures
            ticks == self@,
    {
        self.value
    }
}

} // verus!
