//! The shared vehicle state that every emulated unit reads: ignition and its
//! "most on" ratchet, the high-voltage contactor, driver inputs, and battery
//! and inverter readings taken from inbound CAN traffic, each bus-derived
//! field going stale on its own.
use vstd::prelude::*;

use crate::fresh::{Fresh, IsFresh};
use crate::shift_control::ParkRequest;
use crate::Instant;

verus! {

/// Main power state, from off to fully on.
#[derive(Clone, Copy, Debug, PartialEq, Eq, Structural)]
pub enum Ignition {
    /// Off, and about to go to sleep.
    Off,
    /// Partly on for charging (IG3 relay), not to drive.
    IG3,
    /// Fully on (IG1 and IG3 relays).
    On,
}

/// State of the charge port lock actuator.
#[derive(Clone, Copy, Debug, PartialEq, Eq, Structural)]
pub enum ChargeLock {
    Unlocked,
    Locked,
}

/// High-voltage contactor state.
#[derive(Clone, Copy, Debug, PartialEq, Eq, Structural)]
pub enum Contactor {
    /// Open: high voltage isolated.
    Open,
    /// Pre-charging the inverter through the pre-charge relay.
    PreCharging,
    /// Fully closed: high voltage on.
    Closed,
}

/// Selected gear.
#[derive(Clone, Copy, Debug, PartialEq, Eq, Structural)]
pub enum Gear {
    Park,
    Neutral,
    Drive,
    Reverse,
}

impl Ignition {
    /// Rank in the order Off < IG3 < On.
    pub open spec fn level(self) -> nat {
        match self {
            Ignition::Off => 0,
            Ignition::IG3 => 1,
            Ignition::On => 2,
        }
    }

    /// True if IG3 is on, with or without IG1.
    pub fn ig3_on(&self) -> (r: bool)
        ensures
            r == !(*self is Off),
    {
        !matches!(self, Ignition::Off)
    }
}

impl ChargeLock {
    /// True when locked.
    pub fn is_locked(&self) -> (r: bool)
        ensures
            r == (*self is Locked),
    {
        *self == ChargeLock::Locked
    }
}

/// The higher of two ignition states.
pub open spec fn ignition_max(a: Ignition, b: Ignition) -> Ignition {
    if a.level() >= b.level() {
        a
    } else {
        b
    }
}

/// The contactor state that the main-contactor message sets, given the
/// pre-charge relay state latched from the other message.
pub open spec fn contactor_from(contactor_closed: bool, precharging: bool) -> Contactor {
    if contactor_closed {
        Contactor::Closed
    } else if precharging {
        Contactor::PreCharging
    } else {
        Contactor::Open
    }
}

/// Contactor transitions that are applied but flagged: a change out of a
/// reset while closed or pre-charging, a skipped pre-charge, a failed
/// pre-charge, and falling back from closed to pre-charging.
pub open spec fn unexpected_transition(prev: Option<Contactor>, next: Contactor) -> bool {
    match (prev, next) {
        (None, Contactor::Closed) => true,
        (None, Contactor::PreCharging) => true,
        (Some(Contactor::Open), Contactor::Closed) => true,
        (Some(Contactor::PreCharging), Contactor::Open) => true,
        (Some(Contactor::Closed), Contactor::PreCharging) => true,
        _ => false,
    }
}

/// A decoded inbound message, holding the signals the state model reads.
/// Battery figures are in tenths of their unit.
#[derive(Clone, Copy, Debug)]
pub enum PcanMessage {
    /// Battery management: main contactor state.
    Bms5a3 { contactor_closed: bool },
    /// Battery high-voltage status: pre-charge relay, voltage, current.
    BattHvStatus { precharge_closed: bool, v_batt_dv: u16, i_batt_da: i16 },
    /// Battery management: displayed state of charge.
    Bms542 { soc_disp_pm: u16 },
    /// On-board charger: charging station detected, charge port requests.
    Obc58e { evse_detected: bool, port_lock_req: bool, port_unlock_req: bool },
    /// Inverter: DC voltage and motor speed.
    InverterStatus { v_inverter: u16, speed_abs: u16 },
    /// Vehicle control unit: current gear, `None` for a value outside the
    /// known gears.
    Vcu200 { gear: Option<Gear> },
    /// Vehicle control unit: parking actuator request.
    Vcu109 { park_request: ParkRequest },
    /// Any other message.
    Other,
}

/// Something worth reporting that `update_state` noticed. The state is
/// updated all the same.
#[derive(Clone, Copy, Debug, PartialEq, Eq, Structural)]
pub enum Anomaly {
    /// Nothing unusual.
    Nothing,
    /// The contactor changed in a way a healthy vehicle does not.
    UnexpectedContactor,
    /// The contactor message keeps arriving while the pre-charge state is
    /// stale: the pre-charge message is probably missing.
    MissingPrecharge,
    /// The gear message held an unknown gear while powered.
    InvalidGear,
}

/// The state of the whole vehicle, as presented to the emulated units.
#[derive(Clone, Copy)]
pub struct CarState {
    /// Main ignition state, from the hard-wired inputs.
    pub ignition: Ignition,
    /// The highest ignition state seen since reset.
    pub most_on: Ignition,
    /// Main contactor state, from the battery management messages.
    pub contactor: Fresh<Contactor, 3>,
    /// Debounced level of the EV Ready input.
    pub ev_ready_input: bool,
    pub charge_port: ChargeLock,
    pub is_braking: bool,
    pub gear: Fresh<Gear, 3>,
    /// Displayed state of charge, in tenths of a percent.
    pub soc_batt: u16,
    /// Battery voltage in tenths of a volt.
    pub v_batt: u16,
    /// Battery current in tenths of an ampere.
    pub i_batt: i16,
    pub v_inverter: Fresh<u16, 3>,
    pub motor_rpm: Fresh<u16, 1>,
    /// Pre-charge relay state, latched for the next contactor message.
    pub last_precharge: Fresh<bool, 3>,
    /// A charging station is detected; also shows the charger is powered.
    pub evse_detected: Fresh<bool, 3>,
    /// When a valid message last arrived on the bus.
    pub last_pcan_rx: Option<Instant>,
    /// The bus went bus-off, which it does not recover from.
    pub pcan_bus_off: bool,
}

/// How long after the last inbound message the bus still counts as live.
pub const PCAN_RX_TIMEOUT_MS: u64 = 2000;

impl CarState {
    /// Everything off, nothing seen on the bus.
    pub fn new() -> (r: Self)
        ensures
            r.ignition == Ignition::Off,
            r.most_on == Ignition::Off,
            r.contactor@ is None,
            r.gear@ is None,
            r.v_inverter@ is None,
            r.motor_rpm@ is None,
            r.last_precharge@ is None,
            r.evse_detected@ is None,
            !r.ev_ready_input,
            !r.is_braking,
            r.charge_port == ChargeLock::Unlocked,
            r.soc_batt == 0 && r.v_batt == 0 && r.i_batt == 0,
            r.last_pcan_rx is None,
            !r.pcan_bus_off,
    {
        CarState {
            ignition: Ignition::Off,
            most_on: Ignition::Off,
            contactor: Fresh::new(),
            ev_ready_input: false,
            charge_port: ChargeLock::Unlocked,
            is_braking: false,
            gear: Fresh::new(),
            soc_batt: 0,
            v_batt: 0,
            i_batt: 0,
            v_inverter: Fresh::new(),
            motor_rpm: Fresh::new(),
            last_precharge: Fresh::new(),
            evse_detected: Fresh::new(),
            last_pcan_rx: None,
            pcan_bus_off: false,
        }
    }

    pub fn ignition(&self) -> (r: Ignition)
        ensures
            r == self.ignition,
    {
        self.ignition
    }

    /// The contactor state with its freshness.
    pub fn contactor(&self) -> (r: Fresh<Contactor, 3>)
        ensures
            r@ == self.contactor@,
    {
        self.contactor
    }

    pub fn v_inverter(&self) -> (r: Fresh<u16, 3>)
        ensures
            r@ == self.v_inverter@,
    {
        self.v_inverter
    }

    pub fn motor_rpm(&self) -> (r: Fresh<u16, 1>)
        ensures
            r@ == self.motor_rpm@,
    {
        self.motor_rpm
    }

    /// Displayed state of charge, in tenths of a percent.
    pub fn soc_batt(&self) -> (r: u16)
        ensures
            r == self.soc_batt,
    {
        self.soc_batt
    }

    pub fn gear(&self) -> (r: Fresh<Gear, 3>)
        ensures
            r@ == self.gear@,
    {
        self.gear
    }

    pub fn evse_detected(&self) -> (r: Fresh<bool, 3>)
        ensures
            r@ == self.evse_detected@,
    {
        self.evse_detected
    }

    /// Sets the ignition state and raises the "most on" ratchet to it.
    pub fn set_ignition(&mut self, value: Ignition)
        ensures
            *final(self) == (CarState { ignition: value, most_on: ignition_max(old(self).most_on, value), ..*old(self) }),
    {
        self.ignition = value;
        self.most_on = match (self.most_on, value) {
            (Ignition::Off, Ignition::IG3) => Ignition::IG3,
            (_, Ignition::On) => Ignition::On,
            (existing, _) => existing,
        };
    }

    pub fn is_braking(&self) -> (r: bool)
        ensures
            r == self.is_braking,
    {
        self.is_braking
    }

    pub fn set_is_braking(&mut self, value: bool)
        ensures
            *final(self) == (CarState { is_braking: value, ..*old(self) }),
    {
        self.is_braking = value;
    }

    /// EV Ready: the input is active and the inverter is reporting. The
    /// input is active low, so it also reads active while the control unit
    /// driving it is off.
    pub fn ev_ready(&self, now: Instant) -> (r: bool)
        ensures
            r == (self.ev_ready_input && self.v_inverter.fresh_at(now).is_some()),
    {
        self.ev_ready_input && self.v_inverter.is_fresh(now)
    }

    pub fn set_ev_ready_input(&mut self, value: bool)
        ensures
            *final(self) == (CarState { ev_ready_input: value, ..*old(self) }),
    {
        self.ev_ready_input = value;
    }

    pub fn charge_port(&self) -> (r: ChargeLock)
        ensures
            r == self.charge_port,
    {
        self.charge_port
    }

    pub fn set_charge_port(&mut self, value: ChargeLock)
        ensures
            *final(self) == (CarState { charge_port: value, ..*old(self) }),
    {
        self.charge_port = value;
    }

    /// The highest ignition state seen since reset.
    pub fn most_on(&self) -> (r: Ignition)
        ensures
            r == self.most_on,
    {
        self.most_on
    }

    pub fn set_evse_detected(&mut self, value: bool, now: Instant)
        ensures
            final(self).evse_detected@ == Some((now, value)),
            *final(self) == (CarState { evse_detected: final(self).evse_detected, ..*old(self) }),
    {
        self.evse_detected.set(value, now);
        proof {
            lemma_view_of_set(self.evse_detected);
        }
    }

    /// Records that a valid message arrived at `now`.
    pub fn set_last_pcan_rx(&mut self, now: Instant)
        ensures
            *final(self) == (CarState { last_pcan_rx: Some(now), ..*old(self) }),
    {
        self.last_pcan_rx = Some(now);
    }

    /// The charger is sending messages, which stands for IG3 being powered.
    pub fn ig3_appears_powered(&self, now: Instant) -> (r: bool)
        ensures
            r == self.evse_detected.fresh_at(now).is_some(),
    {
        self.evse_detected.is_fresh(now)
    }

    /// A valid message arrived less than `PCAN_RX_TIMEOUT_MS` before `now`.
    pub open spec fn receiving_at(self, now: Instant) -> bool {
        match self.last_pcan_rx {
            Some(t) => t <= now && now - t < PCAN_RX_TIMEOUT_MS,
            None => false,
        }
    }

    /// A valid message arrived less than `PCAN_RX_TIMEOUT_MS` ago.
    pub fn pcan_receiving(&self, now: Instant) -> (r: bool)
        ensures
            r == self.receiving_at(now),
    {
        match self.last_pcan_rx {
            Some(t) => t <= now && now - t < PCAN_RX_TIMEOUT_MS,
            None => false,
        }
    }

    /// Records that the bus went bus-off.
    pub fn set_pcan_bus_off(&mut self)
        ensures
            *final(self) == (CarState { pcan_bus_off: true, ..*old(self) }),
    {
        self.pcan_bus_off = true;
    }

    pub fn pcan_bus_off(&self) -> (r: bool)
        ensures
            r == self.pcan_bus_off,
    {
        self.pcan_bus_off
    }

    /// Ready to drive: fully on with the contactor known to be closed.
    pub fn ready(&self, now: Instant) -> (r: bool)
        ensures
            r == (self.ignition == Ignition::On && self.contactor.fresh_at(now) == Some(Contactor::Closed)),
    {
        self.ignition == Ignition::On && match self.contactor.get(now) {
            Some(Contactor::Closed) => true,
            _ => false,
        }
    }
}

/// The contactor state that a main-contactor message with this flag sets,
/// given the state at `now`: the pre-charge flag counts only while fresh.
pub open spec fn next_contactor(car: CarState, contactor_closed: bool, now: Instant) -> Contactor {
    contactor_from(contactor_closed, car.last_precharge.fresh_at(now) == Some(true))
}

/// What `update_state` reports for a main-contactor message.
pub open spec fn contactor_anomaly(car: CarState, next: Contactor, now: Instant) -> Anomaly {
    if car.contactor.fresh_at(now) is Some && car.last_precharge.fresh_at(now) is None {
        Anomaly::MissingPrecharge
    } else if car.contactor.fresh_at(now) != Some(next) && unexpected_transition(car.contactor.last_value(), next) {
        Anomaly::UnexpectedContactor
    } else {
        Anomaly::Nothing
    }
}

/// How `update_state` changes the state and what it reports. Every message
/// stamps the time of the last valid reception; each kind then updates the
/// fields it carries, stamping the fresh ones with `now`, and leaves the rest
/// alone.
pub open spec fn update_spec(pre: CarState, post: CarState, msg: PcanMessage, now: Instant, anomaly: Anomaly) -> bool {
    let base = CarState { last_pcan_rx: Some(now), ..pre };
    match msg {
        PcanMessage::Bms5a3 { contactor_closed } => {
            let next = next_contactor(pre, contactor_closed, now);
            &&& post == CarState { contactor: post.contactor, ..base }
            &&& post.contactor@ == Some((now, next))
            &&& anomaly == contactor_anomaly(pre, next, now)
        },
        PcanMessage::BattHvStatus { precharge_closed, v_batt_dv, i_batt_da } => {
            &&& post == CarState { last_precharge: post.last_precharge, v_batt: v_batt_dv, i_batt: i_batt_da, ..base }
            &&& post.last_precharge@ == Some((now, precharge_closed))
            &&& anomaly == Anomaly::Nothing
        },
        PcanMessage::Bms542 { soc_disp_pm } => {
            &&& post == CarState { soc_batt: soc_disp_pm, ..base }
            &&& anomaly == Anomaly::Nothing
        },
        PcanMessage::Obc58e { evse_detected, .. } => {
            &&& post == CarState { evse_detected: post.evse_detected, ..base }
            &&& post.evse_detected@ == Some((now, evse_detected))
            &&& anomaly == Anomaly::Nothing
        },
        PcanMessage::InverterStatus { v_inverter, speed_abs } => {
            &&& post == CarState { v_inverter: post.v_inverter, motor_rpm: post.motor_rpm, ..base }
            &&& post.v_inverter@ == Some((now, v_inverter))
            &&& post.motor_rpm@ == Some((now, speed_abs))
            &&& anomaly == Anomaly::Nothing
        },
        PcanMessage::Vcu200 { gear: Some(g) } => {
            &&& post == CarState { gear: post.gear, ..base }
            &&& post.gear@ == Some((now, g))
            &&& anomaly == Anomaly::Nothing
        },
        PcanMessage::Vcu200 { gear: None } => {
            &&& post == base
            &&& anomaly == (if pre.ignition is Off { Anomaly::Nothing } else { Anomaly::InvalidGear })
        },
        PcanMessage::Vcu109 { .. } | PcanMessage::Other => {
            &&& post == base
            &&& anomaly == Anomaly::Nothing
        },
    }
}

impl CarState {
    /// Sets the contactor state, stamping it with `now`, and tells whether
    /// the change is one a healthy vehicle does not make.
    fn set_contactor(&mut self, new_state: Contactor, now: Instant) -> (unexpected: bool)
        ensures
            *final(self) == (CarState { contactor: final(self).contactor, ..*old(self) }),
            final(self).contactor@ == Some((now, new_state)),
            unexpected == (old(self).contactor.fresh_at(now) != Some(new_state)
                && unexpected_transition(old(self).contactor.last_value(), new_state)),
    {
        let current = self.contactor.get(now);
        let changed = match current {
            Some(c) => c != new_state,
            None => true,
        };
        let unexpected = changed && match (self.contactor.get_unchecked(), new_state) {
            (None, Contactor::Closed) => true,
            (None, Contactor::PreCharging) => true,
            (Some(Contactor::Open), Contactor::Closed) => true,
            (Some(Contactor::PreCharging), Contactor::Open) => true,
            (Some(Contactor::Closed), Contactor::PreCharging) => true,
            _ => false,
        };
        // Always set, to keep the value fresh.
        self.contactor.set(new_state, now);
        proof {
            lemma_view_of_set(self.contactor);
        }
        unexpected
    }

    /// Applies a decoded inbound message at `now`.
    ///
    /// The pre-charge relay state is only latched when it arrives; the
    /// contactor state changes when the main-contactor message arrives, from
    /// its flag and the latched pre-charge state. This keeps the result right
    /// whichever order the two messages come in. Unusual transitions are
    /// applied and reported, never refused.
    pub fn update_state(&mut self, msg: &PcanMessage, now: Instant) -> (anomaly: Anomaly)
        ensures
            update_spec(*old(self), *final(self), *msg, now, anomaly),
    {
        let anomaly = match *msg {
            PcanMessage::Bms5a3 { contactor_closed } => {
                let missing_precharge = self.contactor.is_fresh(now) && self.last_precharge.is_stale(now);
                let precharging = match self.last_precharge.get(now) {
                    Some(p) => p,
                    None => false,
                };
                let next = if contactor_closed {
                    Contactor::Closed
                } else if precharging {
                    Contactor::PreCharging
                } else {
                    Contactor::Open
                };
                let unexpected = self.set_contactor(next, now);
                if missing_precharge {
                    Anomaly::MissingPrecharge
                } else if unexpected {
                    Anomaly::UnexpectedContactor
                } else {
                    Anomaly::Nothing
                }
            },
            PcanMessage::BattHvStatus { precharge_closed, v_batt_dv, i_batt_da } => {
                // Only latch the pre-charge state here: the contactor state
                // follows on the next main-contactor message.
                self.last_precharge.set(precharge_closed, now);
                proof {
                    lemma_view_of_set(self.last_precharge);
                }
                self.v_batt = v_batt_dv;
                self.i_batt = i_batt_da;
                Anomaly::Nothing
            },
            PcanMessage::Bms542 { soc_disp_pm } => {
                self.soc_batt = soc_disp_pm;
                Anomaly::Nothing
            },
            PcanMessage::Obc58e { evse_detected, .. } => {
                self.set_evse_detected(evse_detected, now);
                Anomaly::Nothing
            },
            PcanMessage::InverterStatus { v_inverter, speed_abs } => {
                self.v_inverter.set(v_inverter, now);
                self.motor_rpm.set(speed_abs, now);
                proof {
                    lemma_view_of_set(self.v_inverter);
                    lemma_view_of_set(self.motor_rpm);
                }
                Anomaly::Nothing
            },
            PcanMessage::Vcu200 { gear } => {
                match gear {
                    Some(g) => {
                        self.gear.set(g, now);
                        proof {
                            lemma_view_of_set(self.gear);
                        }
                        Anomaly::Nothing
                    },
                    None => if self.ignition.ig3_on() {
                        Anomaly::InvalidGear
                    } else {
                        Anomaly::Nothing
                    },
                }
            },
            PcanMessage::Vcu109 { .. } | PcanMessage::Other => Anomaly::Nothing,
        };
        self.set_last_pcan_rx(now);
        anomaly
    }
}

/// The "most on" ratchet never falls: setting the ignition leaves it at
/// least as high as before and at least as high as the new state, and no
/// inbound message moves it.
pub proof fn lemma_most_on_ratchet(pre: CarState, post: CarState, value: Ignition, post2: CarState, msg: PcanMessage, now: Instant, anomaly: Anomaly)
    requires
        post == (CarState { ignition: value, most_on: ignition_max(pre.most_on, value), ..pre }),
        update_spec(post, post2, msg, now, anomaly),
    ensures
        post.most_on.level() >= pre.most_on.level(),
        post.most_on.level() >= value.level(),
        post2.most_on == post.most_on,
{
}

/// `set` leaves exactly the stamp and the value in the view.
proof fn lemma_view_of_set<V: Copy, const S: u32>(f: Fresh<V, S>)
    requires
        f.last_value() is Some,
        f.last_set() is Some,
    ensures
        f@ == Some((f.last_set()->0, f.last_value()->0)),
{
}

} // verus!
