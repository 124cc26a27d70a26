//! Values that carry the time they were last set, and count as stale once a
//! fixed window has passed since then.
use vstd::prelude::*;

use crate::Instant;

verus! {

/// A value paired with the time it was last set. It is fresh for
/// `STALE_SECS` seconds after each `set`, and stale before the first one.
#[derive(Clone, Copy)]
pub struct Fresh<VALUE: Copy, const STALE_SECS: u32> {
    value: Option<(Instant, VALUE)>,
}

/// Read access to a value that can go stale.
pub trait IsFresh<VALUE>: Sized {
    /// The value as it reads at time `now`: the last value set, if it was
    /// set less than the window ago, else `None`.
    spec fn fresh_at(&self, now: Instant) -> Option<VALUE>;

    /// The last value set, however old.
    spec fn last_value(&self) -> Option<VALUE>;

    /// The time of the last `set`, if there was one.
    spec fn last_set(&self) -> Option<Instant>;

    /// Set the value, stamping it with `now`.
    fn set(&mut self, value: VALUE, now: Instant)
        ensures
            final(self).last_value() == Some(value),
            final(self).last_set() == Some(now),
    ;

    /// The value, or `None` if it is stale or was never set.
    fn get(&self, now: Instant) -> (r: Option<VALUE>)
        ensures
            r == self.fresh_at(now),
    ;

    /// The last value set, even if it is stale.
    fn get_unchecked(&self) -> (r: Option<VALUE>)
        ensures
            r == self.last_value(),
    ;

    /// True if the value was set less than the window ago.
    fn is_fresh(&self, now: Instant) -> (r: bool)
        ensures
            r == self.fresh_at(now).is_some(),
    ;

    /// True if the value is not fresh.
    fn is_stale(&self, now: Instant) -> (r: bool)
        ensures
            r == self.fresh_at(now).is_none(),
    {
        !self.is_fresh(now)
    }
}

impl<VALUE: Copy, const STALE_SECS: u32> Fresh<VALUE, STALE_SECS> {
    /// The staleness window in milliseconds.
    pub open spec fn window() -> int {
        STALE_SECS as int * 1000
    }

    /// A value that was never set, and so is stale.
    pub fn new() -> (r: Self)
        ensures
            r@.is_none(),
            forall|now: Instant| r.fresh_at(now).is_none(),
    {
        Fresh { value: None }
    }

}

impl<VALUE: Copy, const STALE_SECS: u32> View for Fresh<VALUE, STALE_SECS> {
    type V = Option<(Instant, VALUE)>;

    /// The time of the last `set` and the value it stored.
    closed spec fn view(&self) -> Option<(Instant, VALUE)> {
        self.value
    }
}

impl<VALUE: Copy, const STALE_SECS: u32> IsFresh<VALUE> for Fresh<VALUE, STALE_SECS> {
    open spec fn fresh_at(&self, now: Instant) -> Option<VALUE> {
        match self@ {
            Some((t, v)) => if t <= now && now - t < Self::window() {
                Some(v)
            } else {
                None
            },
            None => None,
        }
    }

    open spec fn last_value(&self) -> Option<VALUE> {
        match self@ {
            Some((_, v)) => Some(v),
            None => None,
        }
    }

    open spec fn last_set(&self) -> Option<Instant> {
        match self@ {
            Some((t, _)) => Some(t),
            None => None,
        }
    }

    fn set(&mut self, value: VALUE, now: Instant) {
        self.value = Some((now, value));
    }

    fn get(&self, now: Instant) -> (r: Option<VALUE>) {
        if self.is_fresh(now) {
            self.get_unchecked()
        } else {
            None
        }
    }

    fn get_unchecked(&self) -> (r: Option<VALUE>) {
        match self.value {
            Some((_, v)) => Some(v),
            None => None,
        }
    }

    fn is_fresh(&self, now: Instant) -> (r: bool) {
        match self.value {
            Some((t, _)) => {
                if t <= now {
                    let secs = (now - t) / 1000;
                    proof {
                        let e = (now - t) as int;
                        let s = STALE_SECS as int;
                        assert(e / 1000 < s <==> e < s * 1000) by (nonlinear_arith)
                            requires e >= 0, s >= 0;
                    }
                    secs < STALE_SECS as u64
                } else {
                    false
                }
            },
            None => false,
        }
    }
}

/// A value set at `set_at` reads back as itself at every time from `set_at`
/// up to, not including, `set_at` plus the window, and as stale from then on.
pub proof fn lemma_fresh_round_trip<VALUE: Copy, const STALE_SECS: u32>(
    f: Fresh<VALUE, STALE_SECS>,
    value: VALUE,
    set_at: Instant,
    t: Instant,
)
    requires
        STALE_SECS > 0,
        f.last_value() == Some(value),
        f.last_set() == Some(set_at),
    ensures
        set_at <= t < set_at + Fresh::<VALUE, STALE_SECS>::window() ==> f.fresh_at(t) == Some(value),
        t >= set_at + Fresh::<VALUE, STALE_SECS>::window() ==> f.fresh_at(t) is None,
{
}

} // verus!
