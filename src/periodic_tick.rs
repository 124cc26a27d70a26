//! A ticker that announces, on each base tick, which rates are due. The
//! base tick is the greatest common divisor of the periods of all rates.
use vstd::prelude::*;

use crate::periodic::{common_period_ms, gcd, gcd_all, INSTANT_MAX};
use crate::repeater::{Period, PeriodSet, PERIOD_COUNT, TICK_MS};
use crate::{Duration, Instant};

verus! {

/// The base tick: the greatest common divisor of the periods of all rates,
/// in milliseconds. Every period is a whole number of base ticks.
pub fn ticker_duration() -> (r: Duration)
    ensures
        r == TICK_MS,
        forall|p: Period| (1000int / (p.hz() as int)) % (r as int) == 0,
{
    let mut periods: Vec<u32> = Vec::new();
    let mut i: usize = 0;
    while i < PERIOD_COUNT
        invariant
            i <= PERIOD_COUNT,
            periods@.len() == i,
            forall|j: int| 0 <= j < i ==> #[trigger] periods@[j] > 0,
            forall|p: Period| p.index() < i ==> periods@[p.index()] as int == 1000int / (p.hz() as int),
        decreases PERIOD_COUNT - i,
    {
        let p = Period::from_index(i).unwrap();
        periods.push((p.duration()) as u32);
        proof {
            assert forall|q: Period| q.index() < i + 1 implies periods@[q.index()] as int == 1000int / (q.hz() as int) by {
                if q.index() == i as int {
                    assert(q == p);
                }
            }
        }
        i += 1;
    }
    let common = common_period_ms(periods.as_slice());
    proof {
        assert(periods@ =~= seq![1000u32, 200, 100, 50, 20, 10]) by {
            assert(periods@[Period::Hz1.index()] == 1000);
            assert(periods@[Period::Hz5.index()] == 200);
            assert(periods@[Period::Hz10.index()] == 100);
            assert(periods@[Period::Hz20.index()] == 50);
            assert(periods@[Period::Hz50.index()] == 20);
            assert(periods@[Period::Hz100.index()] == 10);
        }
        lemma_base_tick();
        assert forall|p: Period| (1000int / (p.hz() as int)) % (common as int) == 0 by {
            assert(0 <= p.index() < 6);
            assert(periods@[p.index()] % common == 0);
        }
    }
    common as u64
}

proof fn lemma_base_tick()
    ensures
        gcd_all(seq![1000u32, 200, 100, 50, 20, 10]) == 10,
{
    let s6 = seq![1000u32, 200, 100, 50, 20, 10];
    let s5 = seq![1000u32, 200, 100, 50, 20];
    let s4 = seq![1000u32, 200, 100, 50];
    let s3 = seq![1000u32, 200, 100];
    let s2 = seq![1000u32, 200];
    let s1 = seq![1000u32];
    assert(s6.drop_last() =~= s5);
    assert(s5.drop_last() =~= s4);
    assert(s4.drop_last() =~= s3);
    assert(s3.drop_last() =~= s2);
    assert(s2.drop_last() =~= s1);
    assert(s1.drop_last() =~= Seq::<u32>::empty());
    assert(gcd(1000, 0) == 1000);
    assert(gcd(0, 1000) == 1000);
    assert(gcd(200, 0) == 200);
    assert(gcd(1000, 200) == 200);
    assert(gcd(100, 0) == 100);
    assert(gcd(200, 100) == 100);
    assert(gcd(50, 0) == 50);
    assert(gcd(100, 50) == 50);
    assert(gcd(10, 0) == 10);
    assert(gcd(20, 10) == 10);
    assert(gcd(50, 20) == 10);
    assert(gcd(10, 10) == 10);
    assert(gcd_all(Seq::<u32>::empty()) == 0);
    assert(s1.last() == 1000u32 && s2.last() == 200u32 && s3.last() == 100u32);
    assert(s4.last() == 50u32 && s5.last() == 20u32 && s6.last() == 10u32);
    assert(gcd_all(s1) == gcd(0, 1000));
    assert(gcd_all(s2) == gcd(1000, 200));
    assert(gcd_all(s3) == gcd(200, 100));
    assert(gcd_all(s4) == gcd(100, 50));
    assert(gcd_all(s5) == gcd(50, 20));
    assert(gcd_all(s6) == gcd(10, 10));
}

/// Number of base ticks in one period of `p`.
pub fn ticks_per_period(p: Period) -> (r: u64)
    ensures
        r == p.multiplier_spec(),
{
    let tick = ticker_duration();
    let d = p.duration();
    proof {
        match p {
            Period::Hz1 => {
                assert(d == 1000);
                assert(d / tick == 100);
            },
            Period::Hz5 => {
                assert(d == 200);
                assert(d / tick == 20);
            },
            Period::Hz10 => assert(d / tick == 10),
            Period::Hz20 => assert(d / tick == 5),
            Period::Hz50 => assert(d / tick == 2),
            Period::Hz100 => assert(d / tick == 1),
        }
    }
    d / tick
}

/// The state of the loop that announces due rates: tick `n` falls at
/// `start + n * TICK_MS`, and announces every rate whose period divides it.
pub struct Ticker {
    /// The epoch.
    pub start: Instant,
    /// When the next tick falls.
    pub next: Instant,
    /// Number of the next tick.
    pub n: u64,
}

impl Ticker {
    /// The next tick lies on the grid of base ticks from the epoch.
    pub open spec fn wf(&self) -> bool {
        self.next == self.start + self.n * TICK_MS
    }

    /// A ticker whose first tick falls at `now`.
    pub fn new(now: Instant) -> (r: Ticker)
        ensures
            r.wf(),
            r.start == now,
            r.next == now,
            r.n == 0,
    {
        Ticker { start: now, next: now, n: 0 }
    }

    /// Call once the clock reaches `next`: returns the rates due on this
    /// tick and moves on to the next one.
    pub fn on_tick(&mut self) -> (r: PeriodSet)
        requires
            old(self).wf(),
            old(self).next <= INSTANT_MAX,
            old(self).n < INSTANT_MAX,
        ensures
            final(self).wf(),
            final(self).start == old(self).start,
            final(self).n == old(self).n + 1,
            forall|p: Period| r.has(p) == (old(self).n % p.multiplier_spec() == 0),
    {
        let due = PeriodSet::all().due_on(self.n);
        self.n = self.n + 1;
        self.next = self.next + ticker_duration();
        due
    }
}

} // verus!
