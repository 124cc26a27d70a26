//! Hard-wired inputs: debouncing of the slow digital inputs, and the
//! ignition state machine that follows the main power input and the signs
//! of life from the rest of the vehicle.
use vstd::prelude::*;

use crate::car::{CarState, ChargeLock, Ignition};
use crate::fresh::IsFresh;
use crate::Instant;

verus! {

/// A debounced change of level.
#[derive(Clone, Copy, Debug, PartialEq, Eq, Structural)]
pub enum Edge {
    /// The input has become high.
    Rising,
    /// The input has become low.
    Falling,
}

/// One step of a stateful debouncer over `n` samples, `full` being
/// `2^n - 1`. The latest samples are the low bits of `pattern`. A sample
/// that leaves an all-high or all-low pattern as it is changes nothing;
/// otherwise it is shifted in. The pattern becoming all high is a rising
/// edge, all low a falling one, reported only when it differs from the last
/// edge reported. Returns the new pattern, the last edge and the report.
pub open spec fn debounce_step(pattern: nat, full: nat, last: Edge, high: bool) -> (nat, Edge, Option<Edge>) {
    if (pattern == full && high) || (pattern == 0 && !high) {
        (pattern, last, None)
    } else {
        let p = (pattern * 2 + if high { 1nat } else { 0nat }) % (full + 1);
        if p == full && last != Edge::Rising {
            (p, Edge::Rising, Some(Edge::Rising))
        } else if p == 0 && last != Edge::Falling {
            (p, Edge::Falling, Some(Edge::Falling))
        } else {
            (p, last, None)
        }
    }
}

/// A debouncer that reports a change of level once `n` samples in a row
/// agree on it.
#[derive(Clone, Copy, Debug)]
pub struct Debouncer {
    /// The latest samples, newest in the lowest bit.
    pub pattern: u32,
    /// `2^n - 1`: all `n` samples high.
    pub full: u32,
    /// The last edge reported, or the initial level.
    pub last_edge: Edge,
}

impl Debouncer {
    /// The pattern fits the window, which holds 2 to 16 samples.
    pub open spec fn wf(&self) -> bool {
        &&& 3 <= self.full < 0x1_0000
        &&& self.pattern <= self.full
    }

    /// The debouncer after one sample.
    pub open spec fn stepped(self, high: bool) -> Debouncer {
        let (p, last, _) = debounce_step(self.pattern as nat, self.full as nat, self.last_edge, high);
        Debouncer { pattern: p as u32, full: self.full, last_edge: last }
    }

    /// The edge one sample reports.
    pub open spec fn edge(self, high: bool) -> Option<Edge> {
        debounce_step(self.pattern as nat, self.full as nat, self.last_edge, high).2
    }

    /// A debouncer over `samples` samples, starting settled at the given
    /// level.
    pub fn new(samples: u32, initial_high: bool) -> (r: Debouncer)
        requires
            2 <= samples <= 16,
        ensures
            r.wf(),
            r.full + 1 == vstd::arithmetic::power2::pow2(samples as nat),
            r.pattern == (if initial_high { r.full } else { 0 }),
            r.last_edge == (if initial_high { Edge::Rising } else { Edge::Falling }),
    {
        let mut span: u32 = 1;
        let mut i: u32 = 0;
        proof {
            vstd::arithmetic::power2::lemma2_to64();
        }
        while i < samples
            invariant
                i <= samples <= 16,
                span as nat == vstd::arithmetic::power2::pow2(i as nat),
            decreases samples - i,
        {
            proof {
                vstd::arithmetic::power2::lemma2_to64();
                vstd::arithmetic::power2::lemma_pow2_unfold((i + 1) as nat);
                vstd::arithmetic::power2::lemma_pow2_strictly_increases(i as nat, 16);
            }
            span = span * 2;
            i += 1;
        }
        proof {
            vstd::arithmetic::power2::lemma2_to64();
            if samples > 2 {
                vstd::arithmetic::power2::lemma_pow2_strictly_increases(2, samples as nat);
            }
            if samples < 16 {
                vstd::arithmetic::power2::lemma_pow2_strictly_increases(samples as nat, 16);
            }
        }
        let full = span - 1;
        Debouncer {
            pattern: if initial_high { full } else { 0 },
            full,
            last_edge: if initial_high { Edge::Rising } else { Edge::Falling },
        }
    }

    /// Takes one sample and returns the edge it completes, if any.
    pub fn update(&mut self, high: bool) -> (r: Option<Edge>)
        requires
            old(self).wf(),
        ensures
            final(self).wf(),
            *final(self) == old(self).stepped(high),
            r == old(self).edge(high),
    {
        if (self.pattern == self.full && high) || (self.pattern == 0 && !high) {
            return None;
        }
        let p = (self.pattern * 2 + if high { 1 } else { 0 }) % (self.full + 1);
        self.pattern = p;
        if p == self.full && self.last_edge != Edge::Rising {
            self.last_edge = Edge::Rising;
            Some(Edge::Rising)
        } else if p == 0 && self.last_edge != Edge::Falling {
            self.last_edge = Edge::Falling;
            Some(Edge::Falling)
        } else {
            None
        }
    }
}

/// The level after an optional edge.
pub open spec fn level_after(edge: Option<Edge>, level: bool) -> bool {
    match edge {
        Some(Edge::Rising) => true,
        Some(Edge::Falling) => false,
        None => level,
    }
}

/// The charge port state after an optional edge of the lock sensor, which
/// is high while unlocked.
pub open spec fn charge_port_after(edge: Option<Edge>, port: ChargeLock) -> ChargeLock {
    match edge {
        Some(Edge::Rising) => ChargeLock::Unlocked,
        Some(Edge::Falling) => ChargeLock::Locked,
        None => port,
    }
}

/// Applies debounced edges of the brake, EV Ready and charge lock inputs to
/// the vehicle state. Nothing else changes.
pub fn apply_input_edges(car: &mut CarState, brakes: Option<Edge>, ev_ready: Option<Edge>, charge_lock: Option<Edge>)
    ensures
        *final(car) == (CarState {
            is_braking: level_after(brakes, old(car).is_braking),
            ev_ready_input: level_after(ev_ready, old(car).ev_ready_input),
            charge_port: charge_port_after(charge_lock, old(car).charge_port),
            ..*old(car)
        }),
{
    if let Some(edge) = brakes {
        car.set_is_braking(edge == Edge::Rising);
    }
    if let Some(edge) = ev_ready {
        car.set_ev_ready_input(edge == Edge::Rising);
    }
    if let Some(edge) = charge_lock {
        car.set_charge_port(match edge {
            Edge::Rising => ChargeLock::Unlocked,
            Edge::Falling => ChargeLock::Locked,
        });
    }
}

/// Debouncers for the brake switch (3 samples), the EV Ready input (5) and
/// the charge port lock sensor (12), sampled on a fixed period.
pub struct SlowInputs {
    pub brakes: Debouncer,
    pub ev_ready: Debouncer,
    pub charge_lock: Debouncer,
}

impl SlowInputs {
    pub open spec fn wf(&self) -> bool {
        self.brakes.wf() && self.ev_ready.wf() && self.charge_lock.wf()
    }

    /// Debouncers that start with every input low.
    pub fn new() -> (r: Self)
        ensures
            r.wf(),
            r.brakes.full == 7 && r.ev_ready.full == 31 && r.charge_lock.full == 0xFFF,
            r.brakes.pattern == 0 && r.ev_ready.pattern == 0 && r.charge_lock.pattern == 0,
            r.brakes.last_edge == Edge::Falling && r.ev_ready.last_edge == Edge::Falling
                && r.charge_lock.last_edge == Edge::Falling,
    {
        proof {
            vstd::arithmetic::power2::lemma2_to64();
        }
        SlowInputs {
            brakes: Debouncer::new(3, false),
            ev_ready: Debouncer::new(5, false),
            charge_lock: Debouncer::new(12, false),
        }
    }

    /// Takes one sample of each input and applies the debounced edges to
    /// the vehicle state; nothing else in it changes.
    pub fn poll(&mut self, brake_high: bool, ev_ready_high: bool, charge_lock_high: bool, car: &mut CarState)
        requires
            old(self).wf(),
        ensures
            final(self).wf(),
            final(self).brakes == old(self).brakes.stepped(brake_high),
            final(self).ev_ready == old(self).ev_ready.stepped(ev_ready_high),
            final(self).charge_lock == old(self).charge_lock.stepped(charge_lock_high),
            *final(car) == (CarState {
                is_braking: level_after(old(self).brakes.edge(brake_high), old(car).is_braking),
                ev_ready_input: level_after(old(self).ev_ready.edge(ev_ready_high), old(car).ev_ready_input),
                charge_port: charge_port_after(old(self).charge_lock.edge(charge_lock_high), old(car).charge_port),
                ..*old(car)
            }),
    {
        let brakes_edge = self.brakes.update(brake_high);
        let ready_edge = self.ev_ready.update(ev_ready_high);
        let lock_edge = self.charge_lock.update(charge_lock_high);
        apply_input_edges(car, brakes_edge, ready_edge, lock_edge);
    }
}

/// Polls with neither the main power input nor the bus showing life before
/// the unit goes to standby.
pub const IDLE_POLLS_BEFORE_STANDBY: u32 = 500;

/// What the ignition state machine decided on one poll.
#[derive(Clone, Copy, Debug, PartialEq, Eq, Structural)]
pub enum IgnitionDecision {
    /// Stay in the current state.
    Stay,
    /// Move to this state.
    Change(Ignition),
    /// The rest of the vehicle is asleep: go to standby.
    Standby,
    /// The bus went bus-off while powered: stop, as emulating over a faulted
    /// bus would show the unit under test an invalid vehicle.
    Halt,
}

/// The ignition state machine. From Off, a rising main power input turns
/// fully on, and signs of IG3 power move to IG3; with no life on the bus the
/// idle count rises, and once it passes `IDLE_POLLS_BEFORE_STANDBY` the unit
/// goes to standby. From IG3, a rising input turns fully on and loss of IG3
/// turns off. From On, a falling input drops to IG3 or off, depending on
/// IG3. A bus-off bus while not off halts.
pub open spec fn ignition_spec(
    ignition: Ignition, ig1_edge: Option<Edge>, ig3_alive: bool, bus_off: bool, receiving: bool, idle: u32,
) -> (IgnitionDecision, u32) {
    if bus_off && !(ignition is Off) {
        (IgnitionDecision::Halt, idle)
    } else {
        match ignition {
            Ignition::Off => if ig1_edge == Some(Edge::Rising) {
                (IgnitionDecision::Change(Ignition::On), idle)
            } else if ig3_alive {
                (IgnitionDecision::Change(Ignition::IG3), idle)
            } else if bus_off || !receiving {
                let next_idle = if idle <= IDLE_POLLS_BEFORE_STANDBY { (idle + 1) as u32 } else { idle };
                if next_idle > IDLE_POLLS_BEFORE_STANDBY {
                    (IgnitionDecision::Standby, next_idle)
                } else {
                    (IgnitionDecision::Stay, next_idle)
                }
            } else {
                (IgnitionDecision::Stay, 0)
            },
            Ignition::IG3 => if ig1_edge == Some(Edge::Rising) {
                (IgnitionDecision::Change(Ignition::On), idle)
            } else if !ig3_alive {
                (IgnitionDecision::Change(Ignition::Off), idle)
            } else {
                (IgnitionDecision::Stay, idle)
            },
            Ignition::On => if ig1_edge == Some(Edge::Falling) {
                if ig3_alive {
                    (IgnitionDecision::Change(Ignition::IG3), idle)
                } else {
                    (IgnitionDecision::Change(Ignition::Off), idle)
                }
            } else {
                (IgnitionDecision::Stay, idle)
            },
        }
    }
}

/// One step of the ignition state machine; returns the decision and the new
/// idle count.
pub fn next_ignition(
    ignition: Ignition, ig1_edge: Option<Edge>, ig3_alive: bool, bus_off: bool, receiving: bool, idle: u32,
) -> (r: (IgnitionDecision, u32))
    ensures
        r == ignition_spec(ignition, ig1_edge, ig3_alive, bus_off, receiving, idle),
{
    if bus_off && ignition != Ignition::Off {
        return (IgnitionDecision::Halt, idle);
    }
    match ignition {
        Ignition::Off => {
            if ig1_edge == Some(Edge::Rising) {
                (IgnitionDecision::Change(Ignition::On), idle)
            } else if ig3_alive {
                (IgnitionDecision::Change(Ignition::IG3), idle)
            } else if bus_off || !receiving {
                // Give the rest of the vehicle time to wake up before going
                // to standby.
                let next_idle = if idle <= IDLE_POLLS_BEFORE_STANDBY { idle + 1 } else { idle };
                if next_idle > IDLE_POLLS_BEFORE_STANDBY {
                    (IgnitionDecision::Standby, next_idle)
                } else {
                    (IgnitionDecision::Stay, next_idle)
                }
            } else {
                (IgnitionDecision::Stay, 0)
            }
        },
        Ignition::IG3 => {
            if ig1_edge == Some(Edge::Rising) {
                (IgnitionDecision::Change(Ignition::On), idle)
            } else if !ig3_alive {
                (IgnitionDecision::Change(Ignition::Off), idle)
            } else {
                (IgnitionDecision::Stay, idle)
            }
        },
        Ignition::On => {
            if ig1_edge == Some(Edge::Falling) {
                if ig3_alive {
                    (IgnitionDecision::Change(Ignition::IG3), idle)
                } else {
                    (IgnitionDecision::Change(Ignition::Off), idle)
                }
            } else {
                (IgnitionDecision::Stay, idle)
            }
        },
    }
}

/// The ignition sequence: debounces the main power input over 5 samples
/// and runs the state machine against the vehicle state.
pub struct IgnitionMonitor {
    pub ig1_on: Debouncer,
    /// Consecutive polls without signs of life.
    pub idle_count: u32,
}

impl IgnitionMonitor {
    /// Main power input low, no idle polls yet.
    pub fn new() -> (r: Self)
        ensures
            r.ig1_on.wf(),
            r.ig1_on.full == 31,
            r.ig1_on.pattern == 0,
            r.ig1_on.last_edge == Edge::Falling,
            r.idle_count == 0,
    {
        proof {
            vstd::arithmetic::power2::lemma2_to64();
        }
        IgnitionMonitor { ig1_on: Debouncer::new(5, false), idle_count: 0 }
    }

    /// Samples the main power input at `now` and decides the next ignition
    /// state from the debounced edge and the vehicle state.
    pub fn poll(&mut self, ig1_high: bool, car: &CarState, now: Instant) -> (r: IgnitionDecision)
        requires
            old(self).ig1_on.wf(),
        ensures
            final(self).ig1_on.wf(),
            final(self).ig1_on == old(self).ig1_on.stepped(ig1_high),
            (r, final(self).idle_count) == ignition_spec(
                car.ignition, old(self).ig1_on.edge(ig1_high), car.evse_detected.fresh_at(now) is Some,
                car.pcan_bus_off, car.receiving_at(now), old(self).idle_count),
    {
        let edge = self.ig1_on.update(ig1_high);
        let ig3_alive = car.ig3_appears_powered(now);
        let receiving = car.pcan_receiving(now);
        let (decision, idle) = next_ignition(car.ignition(), edge, ig3_alive, car.pcan_bus_off(), receiving, self.idle_count);
        self.idle_count = idle;
        decision
    }
}

/// Applies an ignition decision to the vehicle state. Returns the level to
/// drive the IG3 relay and ignition lamp with when the state changed: on
/// exactly when fully on.
pub fn apply_ignition(car: &mut CarState, decision: IgnitionDecision) -> (relay: Option<bool>)
    ensures
        decision matches IgnitionDecision::Change(next) ==> (*final(car) == (CarState {
            ignition: next,
            most_on: crate::car::ignition_max(old(car).most_on, next),
            ..*old(car)
        }) && relay == Some(next == Ignition::On)),
        !(decision is Change) ==> *final(car) == *old(car) && relay is None,
{
    match decision {
        IgnitionDecision::Change(next) => {
            car.set_ignition(next);
            Some(next == Ignition::On)
        },
        _ => None,
    }
}

} // verus!
