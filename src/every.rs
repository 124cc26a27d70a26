//! A single constant-rate wake-up without drift.
use vstd::prelude::*;

use crate::periodic::{rate_period_ms, INSTANT_MAX};
use crate::{Duration, Instant};

verus! {

/// Wakes at `epoch + k * period` for k = 0, 1, 2, ...
pub struct Every {
    /// The next wake-up.
    pub deadline: Instant,
    /// Time between wake-ups.
    pub period: Duration,
}

impl Every {
    /// Wake-ups at `rate_hz` from `now`, the first one at `now`.
    pub fn new(rate_hz: u32, now: Instant) -> (r: Self)
        requires
            rate_hz > 0,
        ensures
            r.deadline == now,
            r.period as int == 1000int / (rate_hz as int),
    {
        Every { deadline: now, period: rate_period_ms(rate_hz) as u64 }
    }

    /// Returns the instant to sleep until, `now` being the time of the
    /// call, and moves the deadline on by exactly one period. A caller more
    /// than a period behind skips ahead to one period after `now` instead
    /// of waking in a burst.
    pub fn next(&mut self, now: Instant) -> (r: Instant)
        requires
            old(self).deadline <= INSTANT_MAX,
            old(self).period <= INSTANT_MAX,
            now <= INSTANT_MAX,
        ensures
            r == old(self).deadline,
            final(self).deadline == (if old(self).deadline + old(self).period < now {
                now + old(self).period
            } else {
                old(self).deadline + old(self).period
            }),
            final(self).period == old(self).period,
    {
        let r = self.deadline;
        self.deadline = self.deadline + self.period;
        if self.deadline < now {
            self.deadline = now + self.period;
        }
        r
    }
}

} // verus!
