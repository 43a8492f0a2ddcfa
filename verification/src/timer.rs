//! Countdown that keeps the finished-job notification up for a fixed
//! grace period and then signals its teardown.

use vstd::prelude::*;

verus! {

/// A single armed countdown. It is created when a job finishes and
/// destroyed by its owner the moment it fires, so it can never fire twice.
pub struct DismissTimer {
    remaining: u64,
}

impl DismissTimer {
    /// Time units left before the timer fires.
    pub closed spec fn remaining(&self) -> u64 {
        self.remaining
    }

    /// Time units left before the timer fires.
    pub fn remaining_time(&self) -> (n: u64)
        ensures
            n == self.remaining(),
    {
        self.remaining
    }

    /// Arm a countdown with the given grace duration.
    pub fn arm(duration: u64) -> (r: Self)
        requires
            duration > 0,
        ensures
            r.remaining() == duration,
    {
        DismissTimer { remaining: duration }
    }

    /// Count one elapsed interval against the remaining time. Returns
    /// whether the timer fired: it fires on the first tick whose elapsed
    /// time reaches the remaining duration, and the owner must then
    /// destroy it.
    pub fn tick(&mut self, elapsed: u64) -> (fired: bool)
        ensures
            fired == (elapsed >= old(self).remaining()),
            !fired ==> final(self).remaining() == old(self).remaining() - elapsed,
    {
        if elapsed >= self.remaining {
            self.remaining = 0;
            true
        } else {
            self.remaining = self.remaining - elapsed;
            false
        }
    }
}

} // verus!
