//! Drift-free periodic scheduling from one base tick.
//!
//! A group wakes at fixed multiples of its shortest period. Each `Period`
//! keeps its own deadline, which moves on by exactly one period each time
//! it fires, so firings land at exact multiples of the period from the
//! epoch. A caller that has fallen more than a period behind skips ahead to
//! one period from now instead of firing a burst of late events.
use vstd::prelude::*;

use crate::frame::QueuedFrame;
use crate::car::CarState;
use crate::{Duration, Instant};

verus! {

/// Milliseconds in a second.
pub const MILLIS_PER_SEC: u32 = 1000;

/// Instants and durations stay at or below this bound, so that sums of two
/// of them fit.
pub const INSTANT_MAX: u64 = 0x4000_0000_0000_0000;

/// Greatest common divisor.
pub open spec fn gcd(a: nat, b: nat) -> nat
    decreases b,
{
    if b == 0 {
        a
    } else {
        gcd(b, a % b)
    }
}

/// Greatest common divisor of all the values in `s`.
pub open spec fn gcd_all(s: Seq<u32>) -> nat
    decreases s.len(),
{
    if s.len() == 0 {
        0
    } else {
        gcd(gcd_all(s.drop_last()), s.last() as nat)
    }
}

/// `d` divides `n`.
pub open spec fn divides(d: nat, n: nat) -> bool {
    d > 0 && n % d == 0
}

proof fn lemma_divides_combination(g: nat, b: nat, r: nat, q: nat)
    requires
        divides(g, b),
        divides(g, r),
    ensures
        divides(g, q * b + r),
{
    let x = b / g;
    let y = r / g;
    vstd::arithmetic::div_mod::lemma_fundamental_div_mod(b as int, g as int);
    vstd::arithmetic::div_mod::lemma_fundamental_div_mod(r as int, g as int);
    assert(q * b + r == g * (q * x + y)) by (nonlinear_arith)
        requires b == g * x, r == g * y;
    vstd::arithmetic::div_mod::lemma_mod_multiples_basic((q * x + y) as int, g as int);
    vstd::arithmetic::mul::lemma_mul_is_commutative(g as int, (q * x + y) as int);
}

/// The gcd divides both arguments, and is positive unless both are zero.
pub proof fn lemma_gcd_divides(a: nat, b: nat)
    requires
        a > 0 || b > 0,
    ensures
        divides(gcd(a, b), a),
        divides(gcd(a, b), b),
    decreases b,
{
    if b == 0 {
        vstd::arithmetic::div_mod::lemma_mod_self_0(a as int);
    } else {
        let r = a % b;
        lemma_gcd_divides(b, r);
        let g = gcd(b, r);
        vstd::arithmetic::div_mod::lemma_fundamental_div_mod(a as int, b as int);
        vstd::arithmetic::mul::lemma_mul_is_commutative(b as int, (a / b) as int);
        lemma_divides_combination(g, b, r, a / b);
    }
}

/// Every common divisor of the arguments divides their gcd.
pub proof fn lemma_gcd_greatest(a: nat, b: nat, d: nat)
    requires
        divides(d, a),
        divides(d, b),
    ensures
        gcd(a, b) % d == 0,
    decreases b,
{
    if b != 0 {
        let r = a % b;
        vstd::arithmetic::div_mod::lemma_fundamental_div_mod(a as int, b as int);
        // r = a - (a / b) * b, and d divides a and b.
        let q = a / b;
        let x = a / d;
        let y = b / d;
        vstd::arithmetic::div_mod::lemma_fundamental_div_mod(a as int, d as int);
        vstd::arithmetic::div_mod::lemma_fundamental_div_mod(b as int, d as int);
        assert(r == d * (x - q * y)) by (nonlinear_arith)
            requires a == d * x, b == d * y, a == b * q + r;
        assert(x - q * y >= 0) by (nonlinear_arith)
            requires r == d * (x - q * y), d > 0, r >= 0;
        vstd::arithmetic::div_mod::lemma_mod_multiples_basic(x - q * y, d as int);
        vstd::arithmetic::mul::lemma_mul_is_commutative(d as int, x - q * y);
        lemma_gcd_greatest(b, r, d);
    }
}

proof fn lemma_gcd_le(a: nat, b: nat)
    requires
        a > 0,
    ensures
        gcd(a, b) <= a,
        gcd(a, b) > 0,
{
    lemma_gcd_divides(a, b);
    vstd::arithmetic::div_mod::lemma_mod_is_zero(a as nat, gcd(a, b));
}

/// Relies on num::integer::gcd: the greatest common divisor of two unsigned
/// integers (Stein's algorithm), with gcd(a, 0) = a.
#[verifier::external_body]
fn num_gcd(a: u32, b: u32) -> (r: u32)
    ensures
        r == gcd(a as nat, b as nat),
{
    num::integer::gcd(a, b)
}

/// The base tick for a set of periods: their greatest common divisor, which
/// every one of them is a whole multiple of.
pub fn common_period_ms(periods: &[u32]) -> (r: u32)
    requires
        periods@.len() > 0,
        forall|i: int| 0 <= i < periods@.len() ==> periods@[i] > 0,
    ensures
        r > 0,
        r as nat == gcd_all(periods@),
        forall|i: int| 0 <= i < periods@.len() ==> #[trigger] periods@[i] % r == 0,
{
    let mut acc: u32 = periods[0];
    let mut i: usize = 1;
    proof {
        let s1 = periods@.subrange(0, 1);
        let p0 = periods@[0] as nat;
        assert(s1.drop_last() =~= Seq::<u32>::empty());
        assert(gcd_all(s1.drop_last()) == 0);
        assert(s1.last() == periods@[0]);
        assert(0nat % p0 == 0);
        assert(gcd(p0, 0) == p0);
        assert(gcd(0, p0) == gcd(p0, 0nat % p0));
        assert(gcd_all(s1) == gcd(0, p0));
        vstd::arithmetic::div_mod::lemma_mod_self_0(p0 as int);
    }
    while i < periods.len()
        invariant
            1 <= i <= periods@.len(),
            forall|j: int| 0 <= j < periods@.len() ==> periods@[j] > 0,
            acc > 0,
            acc as nat == gcd_all(periods@.subrange(0, i as int)),
            forall|j: int| 0 <= j < i ==> #[trigger] periods@[j] % acc == 0,
        decreases periods@.len() - i,
    {
        let p = periods[i];
        let next = num_gcd(acc, p);
        proof {
            lemma_gcd_le(acc as nat, p as nat);
            lemma_gcd_divides(acc as nat, p as nat);
            assert forall|j: int| 0 <= j < i + 1 implies #[trigger] periods@[j] % next == 0 by {
                if j < i {
                    // periods[j] = acc * m and acc = next * n
                    let m = periods@[j] / acc;
                    let n = acc / next;
                    vstd::arithmetic::div_mod::lemma_fundamental_div_mod(periods@[j] as int, acc as int);
                    vstd::arithmetic::div_mod::lemma_fundamental_div_mod(acc as int, next as int);
                    assert(periods@[j] == next * (n * m)) by (nonlinear_arith)
                        requires periods@[j] == acc * m, acc == next * n;
                    vstd::arithmetic::div_mod::lemma_mod_multiples_basic((n * m) as int, next as int);
                    vstd::arithmetic::mul::lemma_mul_is_commutative(next as int, (n * m) as int);
                }
            }
            let s = periods@.subrange(0, i + 1);
            assert(s.drop_last() =~= periods@.subrange(0, i as int));
        }
        acc = next;
        i += 1;
    }
    proof {
        assert(periods@.subrange(0, periods@.len() as int) =~= periods@);
    }
    acc
}

/// The period in milliseconds of a rate given in hertz.
pub fn rate_period_ms(hz: u32) -> (r: u32)
    requires
        hz > 0,
    ensures
        r == MILLIS_PER_SEC / hz,
{
    MILLIS_PER_SEC / hz
}

/// Whether a message with period `period_ms` is due on base tick number
/// `n` of a loop whose base tick is `common_ms`: every `period_ms /
/// common_ms` ticks, from tick 0.
pub fn message_due(period_ms: u32, common_ms: u32, n: u32) -> (r: bool)
    requires
        common_ms > 0,
        period_ms > 0,
        period_ms % common_ms == 0,
    ensures
        r == (n % (period_ms / common_ms) == 0),
{
    let send_every_n = period_ms / common_ms;
    proof {
        vstd::arithmetic::div_mod::lemma_fundamental_div_mod(period_ms as int, common_ms as int);
        assert(send_every_n > 0) by (nonlinear_arith)
            requires period_ms == common_ms * send_every_n, period_ms > 0;
    }
    n % send_every_n == 0
}

/// A message sent at a regular rate, for a loop that sends several.
pub trait PeriodicMessage {
    /// Sending rate in hertz; the same on every call.
    fn rate(&self) -> u32;

    /// Updates the message from the vehicle state and returns the frame to
    /// send now, or `None` to stay silent on this tick.
    fn update_for_transmit(&mut self, car: &CarState) -> Option<QueuedFrame>;

    /// Sending period in milliseconds; 0 for a rate of 0.
    fn period_ms(&self) -> u32 {
        let hz = self.rate();
        if hz == 0 {
            0
        } else {
            rate_period_ms(hz)
        }
    }
}

/// A loop that wakes at fixed multiples of its shortest period.
pub struct PeriodicGroup {
    /// The instant of the latest wake-up.
    pub last: Instant,
    /// The base tick between wake-ups.
    pub shortest: Duration,
}

/// One rate polled from a `PeriodicGroup`: it fires on the first poll at or
/// after its deadline.
pub struct Period {
    /// The length of the period.
    pub period: Duration,
    /// The deadline of the next firing.
    pub next: Instant,
}

impl PeriodicGroup {
    /// A group whose epoch is `now`, waking every `shortest` milliseconds.
    pub fn new(shortest: Duration, now: Instant) -> (r: Self)
        requires
            shortest > 0,
        ensures
            r.last == now,
            r.shortest == shortest,
    {
        PeriodicGroup { last: now, shortest }
    }

    /// Moves on to the next wake-up and returns its instant, for the caller
    /// to sleep until.
    pub fn next_poll(&mut self) -> (r: Instant)
        requires
            old(self).last <= INSTANT_MAX,
            old(self).shortest <= INSTANT_MAX,
        ensures
            final(self).last == old(self).last + old(self).shortest,
            final(self).shortest == old(self).shortest,
            r == final(self).last,
    {
        self.last = self.last + self.shortest;
        self.last
    }

    /// A period of the group, first due at the group's latest wake-up.
    pub fn new_period(&self, period: Duration) -> (r: Period)
        requires
            self.shortest > 0,
            period > 0,
            period % self.shortest == 0,
        ensures
            r.period == period,
            r.next == self.last,
    {
        Period { period, next: self.last }
    }
}

/// How one poll of a period changes it. It fires when its deadline is at or
/// before the group's wake-up `tick`; the deadline then moves on by one
/// period, or to one period after `now` if that would still leave it in the
/// past.
pub open spec fn due_spec(pre: Period, post: Period, tick: Instant, now: Instant, fired: bool) -> bool {
    &&& fired == (pre.next <= tick)
    &&& post.period == pre.period
    &&& !fired ==> post.next == pre.next
    &&& fired ==> post.next == (if pre.next + pre.period < now { now + pre.period } else { pre.next + pre.period })
}

impl Period {
    /// Polls the period at the group's latest wake-up, `now` being the time
    /// of the poll. Returns true when the period fires.
    pub fn due(&mut self, group: &PeriodicGroup, now: Instant) -> (r: bool)
        requires
            old(self).next <= INSTANT_MAX,
            old(self).period <= INSTANT_MAX,
            now <= INSTANT_MAX,
        ensures
            due_spec(*old(self), *final(self), group.last, now, r),
    {
        if self.next <= group.last {
            self.next = self.next + self.period;
            // A caller that polls less often than the period falls behind:
            // skip the missed firings rather than fire them in a burst.
            if self.next < now {
                self.next = now + self.period;
            }
            true
        } else {
            false
        }
    }
}

/// With no backlog, a period fires at exact multiples of itself from its
/// first deadline: after `k` firings, each polled no later than one period
/// past its deadline, the next deadline is `start + k * period`.
pub proof fn lemma_no_drift(states: Seq<Period>, ticks: Seq<Instant>, nows: Seq<Instant>, k: nat)
    requires
        states.len() == k + 1,
        ticks.len() == k,
        nows.len() == k,
        forall|i: int| 0 <= i < k ==> due_spec(#[trigger] states[i], states[i + 1], ticks[i], nows[i], true),
        forall|i: int| 0 <= i < k ==> nows[i] <= #[trigger] states[i].next + states[i].period,
    ensures
        states[k as int].next == states[0].next + k * states[0].period,
        states[k as int].period == states[0].period,
    decreases k,
{
    if k > 0 {
        let j = (k - 1) as nat;
        lemma_no_drift(states.subrange(0, k as int), ticks.subrange(0, j as int), nows.subrange(0, j as int), j);
        assert(due_spec(states[j as int], states[k as int], ticks[j as int], nows[j as int], true));
        assert(states[j as int].next + states[j as int].period >= nows[j as int]);
        assert(states[k as int].next == states[0].next + j * states[0].period + states[0].period);
        assert(j * states[0].period + states[0].period == k * states[0].period) by (nonlinear_arith)
            requires k == j + 1;
    }
}

/// After a stall longer than one period past the deadline, a poll fires
/// once and moves the deadline to exactly one period after `now`: a second
/// poll at any wake-up up to `now` does not fire again.
pub proof fn lemma_bounded_catch_up(p0: Period, p1: Period, p2: Period, tick: Instant, now: Instant, tick2: Instant, fired2: bool)
    requires
        p0.period > 0,
        p0.next <= tick,
        p0.next + p0.period < now,
        tick2 <= now,
        due_spec(p0, p1, tick, now, true),
        due_spec(p1, p2, tick2, now, fired2),
    ensures
        p1.next == now + p0.period,
        !fired2,
{
}

} // verus!
