//! One timer that serves several rates from a single task: it wakes on a
//! fixed base tick and reports which of the rates are due on each tick.
use vstd::prelude::*;

use crate::periodic::INSTANT_MAX;
use crate::{Duration, Instant};

verus! {

/// A repeating rate.
#[derive(Clone, Copy, Debug, PartialEq, Eq, Structural)]
pub enum Period {
    Hz1,
    Hz5,
    Hz10,
    Hz20,
    Hz50,
    Hz100,
}

/// Number of rates.
pub const PERIOD_COUNT: usize = 6;

/// Length of the base tick, the period of the fastest rate.
pub const TICK_MS: u64 = 10;

impl Period {
    /// Position of the rate, slowest first.
    pub open spec fn index(self) -> int {
        match self {
            Period::Hz1 => 0,
            Period::Hz5 => 1,
            Period::Hz10 => 2,
            Period::Hz20 => 3,
            Period::Hz50 => 4,
            Period::Hz100 => 5,
        }
    }

    /// The rate in hertz.
    pub open spec fn hz(self) -> u32 {
        match self {
            Period::Hz1 => 1,
            Period::Hz5 => 5,
            Period::Hz10 => 10,
            Period::Hz20 => 20,
            Period::Hz50 => 50,
            Period::Hz100 => 100,
        }
    }

    /// The number of base ticks in one period.
    pub open spec fn multiplier_spec(self) -> u64 {
        (100u32 / self.hz()) as u64
    }

    /// The rate at a position, slowest first.
    pub fn from_index(i: usize) -> (r: Option<Period>)
        ensures
            i < PERIOD_COUNT <==> r is Some,
            r matches Some(p) ==> p.index() == i,
    {
        match i {
            0 => Some(Period::Hz1),
            1 => Some(Period::Hz5),
            2 => Some(Period::Hz10),
            3 => Some(Period::Hz20),
            4 => Some(Period::Hz50),
            5 => Some(Period::Hz100),
            _ => None,
        }
    }

    fn index_exec(&self) -> (r: usize)
        ensures
            r == self.index(),
    {
        match self {
            Period::Hz1 => 0,
            Period::Hz5 => 1,
            Period::Hz10 => 2,
            Period::Hz20 => 3,
            Period::Hz50 => 4,
            Period::Hz100 => 5,
        }
    }

    /// The rate in hertz.
    pub fn rate(&self) -> (r: u32)
        ensures
            r == self.hz(),
    {
        match self {
            Period::Hz1 => 1,
            Period::Hz5 => 5,
            Period::Hz10 => 10,
            Period::Hz20 => 20,
            Period::Hz50 => 50,
            Period::Hz100 => 100,
        }
    }

    /// The period in milliseconds.
    pub fn duration(&self) -> (r: Duration)
        ensures
            r as int == 1000int / (self.hz() as int),
    {
        (1000 / self.rate()) as u64
    }

    /// The number of base ticks in one period.
    pub fn multiplier(&self) -> (r: u64)
        ensures
            r == self.multiplier_spec(),
            r > 0,
            r as int * TICK_MS as int == 1000int / (self.hz() as int),
    {
        (100 / self.rate()) as u64
    }

    /// The period is due on base tick number `ticks`.
    pub fn due_on(&self, ticks: u64) -> (r: bool)
        ensures
            r == (ticks % self.multiplier_spec() == 0),
    {
        ticks % self.multiplier() == 0
    }
}

/// A set of rates.
#[derive(Clone, Copy, Debug)]
pub struct PeriodSet {
    members: [bool; 6],
}

impl PeriodSet {
    /// The rate is in the set.
    pub closed spec fn has(self, p: Period) -> bool {
        self.members@[p.index()]
    }

    /// No rate.
    pub fn empty() -> (r: PeriodSet)
        ensures
            forall|p: Period| !r.has(p),
    {
        PeriodSet { members: [false; 6] }
    }

    /// Every rate.
    pub fn all() -> (r: PeriodSet)
        ensures
            forall|p: Period| r.has(p),
    {
        PeriodSet { members: [true; 6] }
    }

    /// The set with `p` added.
    pub fn insert(&mut self, p: Period)
        ensures
            forall|q: Period| final(self).has(q) == (old(self).has(q) || q == p),
    {
        let i = p.index_exec();
        self.members[i] = true;
        assert forall|q: Period| self.has(q) == (old(self).has(q) || q == p) by {
            if q.index() == p.index() {
                assert(q == p);
            }
        }
    }

    /// `p` is in the set.
    pub fn contains(&self, p: Period) -> (r: bool)
        ensures
            r == self.has(p),
    {
        self.members[p.index_exec()]
    }

    /// No rate is in the set.
    pub fn is_empty(&self) -> (r: bool)
        ensures
            r == forall|p: Period| !self.has(p),
    {
        let mut i: usize = 0;
        while i < PERIOD_COUNT
            invariant
                i <= PERIOD_COUNT,
                forall|j: int| 0 <= j < i ==> !self.members@[j],
            decreases PERIOD_COUNT - i,
        {
            if self.members[i] {
                let p = Period::from_index(i);
                assert(self.has(p->0));
                return false;
            }
            i += 1;
        }
        assert forall|p: Period| !self.has(p) by {
            assert(0 <= p.index() < 6);
        }
        true
    }

    /// The rates of this set that are due on base tick number `ticks`.
    pub fn due_on(&self, ticks: u64) -> (r: PeriodSet)
        ensures
            forall|p: Period| r.has(p) == (self.has(p) && ticks % p.multiplier_spec() == 0),
    {
        let mut due = PeriodSet::empty();
        let mut i: usize = 0;
        while i < PERIOD_COUNT
            invariant
                i <= PERIOD_COUNT,
                forall|p: Period| #[trigger] due.has(p) == (p.index() < i && self.has(p) && ticks % p.multiplier_spec() == 0),
            decreases PERIOD_COUNT - i,
        {
            let p = Period::from_index(i).unwrap();
            if self.contains(p) && p.due_on(ticks) {
                due.insert(p);
            }
            proof {
                assert forall|q: Period| #[trigger] due.has(q) == (q.index() < i + 1 && self.has(q) && ticks % q.multiplier_spec() == 0) by {
                    if q.index() == i as int {
                        assert(q == p);
                    }
                }
            }
            i += 1;
        }
        proof {
            assert forall|p: Period| due.has(p) == (self.has(p) && ticks % p.multiplier_spec() == 0) by {
                assert(p.index() < 6);
            }
        }
        due
    }
}

/// A timer for several rates at once, without drift: base tick `n` (from 0)
/// falls at `start + (n + 1) * TICK_MS`.
pub struct Repeater {
    /// The epoch.
    pub start: Instant,
    /// When the next base tick expires.
    pub next_tick: Instant,
    /// Number of base ticks so far.
    pub ticks: u64,
}

impl Repeater {
    /// The next tick lies on the grid of base ticks from the epoch.
    pub open spec fn wf(&self) -> bool {
        &&& self.next_tick == self.start + (self.ticks + 1) * TICK_MS
        &&& self.next_tick <= INSTANT_MAX
    }

    /// A timer whose epoch is `now`; its first tick is one base tick later.
    pub fn new(now: Instant) -> (r: Repeater)
        requires
            now <= INSTANT_MAX - TICK_MS,
        ensures
            r.wf(),
            r.start == now,
            r.ticks == 0,
            r.next_tick == now + TICK_MS,
    {
        Repeater { start: now, next_tick: now + TICK_MS, ticks: 0 }
    }

    /// Call once the clock has reached `next_tick`, with `now` the time of
    /// the call. Returns the rates of `enabled` that are due on this tick,
    /// or `None` if there are none, in which case the caller sleeps until
    /// the new `next_tick` and calls again. When it returns rates and the
    /// caller has fallen more than a tick behind, the missed ticks are
    /// skipped rather than served late.
    pub fn tick_filtered(&mut self, enabled: PeriodSet, now: Instant) -> (r: Option<PeriodSet>)
        requires
            old(self).wf(),
            old(self).next_tick <= INSTANT_MAX - 2 * TICK_MS,
            now <= INSTANT_MAX - 2 * TICK_MS,
        ensures
            final(self).wf(),
            final(self).start == old(self).start,
            r is None <==> (forall|p: Period| !(enabled.has(p) && old(self).ticks % p.multiplier_spec() == 0)),
            r matches Some(due) ==> forall|p: Period|
                due.has(p) == (enabled.has(p) && old(self).ticks % p.multiplier_spec() == 0),
            r is None ==> final(self).ticks == old(self).ticks + 1,
            r is Some ==> final(self).ticks >= old(self).ticks + 1,
            r is Some ==> final(self).next_tick >= now,
            r is Some ==> (final(self).ticks == old(self).ticks + 1 || final(self).next_tick < now + TICK_MS),
    {
        let due = enabled.due_on(self.ticks);
        self.next_tick = self.next_tick + TICK_MS;
        self.ticks = self.ticks + 1;
        if due.is_empty() {
            return None;
        }
        // Skip ticks that have already passed: catching up would send a
        // burst of stale messages.
        while now > self.next_tick
            invariant
                self.wf(),
                self.start == old(self).start,
                self.ticks >= old(self).ticks + 1,
                self.next_tick <= INSTANT_MAX - TICK_MS,
                self.ticks == old(self).ticks + 1 || self.next_tick < now + TICK_MS,
                now <= INSTANT_MAX - 2 * TICK_MS,
            decreases now + TICK_MS - self.next_tick,
        {
            self.next_tick = self.next_tick + TICK_MS;
            self.ticks = self.ticks + 1;
        }
        Some(due)
    }

    /// As `tick_filtered` with every rate enabled. The fastest rate is due
    /// on every tick, so there is always a set to return.
    pub fn tick(&mut self, now: Instant) -> (r: PeriodSet)
        requires
            old(self).wf(),
            old(self).next_tick <= INSTANT_MAX - 2 * TICK_MS,
            now <= INSTANT_MAX - 2 * TICK_MS,
        ensures
            final(self).wf(),
            final(self).start == old(self).start,
            forall|p: Period| r.has(p) == (old(self).ticks % p.multiplier_spec() == 0),
            final(self).ticks >= old(self).ticks + 1,
            final(self).next_tick >= now,
            final(self).ticks == old(self).ticks + 1 || final(self).next_tick < now + TICK_MS,
    {
        let all = PeriodSet::all();
        assert(Period::Hz100.hz() == 100);
        assert(100u32 / 100u32 == 1);
        assert(Period::Hz100.multiplier_spec() == 1);
        assert(old(self).ticks % 1 == 0);
        match self.tick_filtered(all, now) {
            Some(due) => due,
            None => {
                assert(all.has(Period::Hz100));
                PeriodSet::empty()
            },
        }
    }
}

} // verus!
