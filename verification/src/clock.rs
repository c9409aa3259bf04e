//! The repeating animation clock that paces frame advances.

use vstd::prelude::*;

verus! {

/// A repeating interval timer driven by per-tick elapsed time.
///
/// Time is measured in integer units chosen by the caller (the surrounding
/// program converts the engine's elapsed seconds into these units).  The
/// clock fires at most once per tick, however much time elapsed: several
/// whole intervals inside one tick still produce a single firing, so frame
/// advances never catch up by skipping frames.
#[derive(Clone, Copy, Debug, PartialEq, Eq, Structural)]
pub struct AnimationClock {
    /// Length of one repetition, in time units; always at least 1.
    pub interval: u64,
    /// Time accumulated toward the next firing; always below `interval`.
    pub elapsed: u64,
}

impl AnimationClock {
    pub open spec fn wf(self) -> bool {
        1 <= self.interval && self.elapsed < self.interval
    }

    /// Whether a tick of `dt` time units makes the clock fire.
    pub open spec fn fires(self, dt: u64) -> bool {
        self.elapsed + dt >= self.interval
    }

    /// The clock after a tick of `dt` time units: the accumulated time moves
    /// forward and, on a firing, wraps to its remainder within the interval.
    pub open spec fn ticked(self, dt: u64) -> AnimationClock {
        AnimationClock {
            interval: self.interval,
            elapsed: (((self.elapsed + dt) as int % self.interval as int)) as u64,
        }
    }

    /// A fresh clock with the given repetition interval.
    pub fn new(interval: u64) -> (c: AnimationClock)
        requires
            1 <= interval,
        ensures
            c == (AnimationClock { interval: interval, elapsed: 0 }),
            c.wf(),
    {
        AnimationClock { interval, elapsed: 0 }
    }

    /// Advance the clock by this tick's elapsed time; the result says whether
    /// the clock fired.  It fires exactly when the accumulated time reaches
    /// the interval, and it fires at most once per tick.
    pub fn tick(&mut self, dt: u64) -> (fired: bool)
        requires
            old(self).wf(),
        ensures
            fired == old(self).fires(dt),
            *final(self) == old(self).ticked(dt),
            final(self).wf(),
    {
        let sum: u128 = (self.elapsed as u128) + (dt as u128);
        let iv: u128 = self.interval as u128;
        if sum >= iv {
            let rem: u128 = sum % iv;
            proof {
                assert(rem < iv);
                assert(rem <= u64::MAX);
            }
            self.elapsed = rem as u64;
            true
        } else {
            proof {
                vstd::arithmetic::div_mod::lemma_small_mod(
                    (old(self).elapsed + dt) as nat,
                    old(self).interval as nat,
                );
            }
            self.elapsed = sum as u64;
            false
        }
    }
}

} // verus!
