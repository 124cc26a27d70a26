//! A callback run at a constant rate, and the message helpers it uses.
use vstd::prelude::*;

pub use crate::can_utils::{byte_checksum_simple, counter_update, counter_update_skip};
use crate::{Duration, Instant};

verus! {

/// The deadline of the next run of a periodic callback.
pub struct Period {
    /// When the callback is next due.
    pub next: Instant,
}

impl Period {
    /// First due at `now`.
    pub fn new(now: Instant) -> (r: Period)
        ensures
            r.next == now,
    {
        Period { next: now }
    }

    /// Moves the deadline on by exactly one period and returns it, for the
    /// caller to sleep until. Where that would pass the end of the clock, the
    /// deadline is left alone and `None` returned: the caller then sleeps for
    /// one period and restarts from the time it wakes.
    pub fn advance(&mut self, period: Duration) -> (r: Option<Instant>)
        ensures
            old(self).next + period <= u64::MAX ==> r == Some((old(self).next + period) as u64)
                && final(self).next == old(self).next + period,
            old(self).next + period > u64::MAX ==> r is None && final(self).next == old(self).next,
    {
        match self.next.checked_add(period) {
            Some(next) => {
                self.next = next;
                Some(next)
            },
            None => None,
        }
    }

    /// Restarts the schedule from `now`.
    pub fn restart(&mut self, now: Instant)
        ensures
            final(self).next == now,
    {
        self.next = now;
    }
}

} // verus!
