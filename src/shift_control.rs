//! The emulated shift control unit's parking actuator. The vehicle control
//! unit asks for lock or unlock over CAN and over a 10 Hz PWM line; the
//! emulated actuator moves at once to whatever was asked last, and reports
//! its position back as a PWM duty cycle.
use vstd::prelude::*;

use crate::car::PcanMessage;
use crate::Instant;

verus! {

/// Period of the PWM signal in milliseconds.
pub const PWM_PERIOD_MS: u64 = 100;

/// Position of the emulated parking actuator.
#[derive(Clone, Copy, Debug, PartialEq, Eq, Structural)]
pub enum ActuatorPosition {
    Unknown,
    Unlocked,
    Locked,
}

/// A park actuator request carried over CAN.
#[derive(Clone, Copy, Debug, PartialEq, Eq, Structural)]
pub enum ParkRequest {
    RequestLock,
    RequestUnlock,
    /// No request, or one this unit does not act on.
    Other,
}

/// Absolute difference.
pub open spec fn abs_diff(a: int, b: int) -> int {
    if a >= b { a - b } else { b - a }
}

/// The position a received duty cycle asks for: unlock at 25 % and lock at
/// 85 %, each within less than 5 points.
pub open spec fn position_for_duty(pct: u32) -> Option<ActuatorPosition> {
    if abs_diff(pct as int, 25) < 5 {
        Some(ActuatorPosition::Unlocked)
    } else if abs_diff(pct as int, 85) < 5 {
        Some(ActuatorPosition::Locked)
    } else {
        None
    }
}

impl ActuatorPosition {
    /// The duty cycle, in percent high, that reports this position.
    pub fn pwm_tx_duty_percent(&self) -> (r: u32)
        ensures
            r == (match *self {
                ActuatorPosition::Unknown => 84u32,
                ActuatorPosition::Unlocked => 64u32,
                ActuatorPosition::Locked => 24u32,
            }),
    {
        match self {
            ActuatorPosition::Unknown => 84,
            ActuatorPosition::Unlocked => 64,
            ActuatorPosition::Locked => 24,
        }
    }

    /// Low and high times in milliseconds of one PWM cycle reporting this
    /// position.
    pub fn pwm_tx_times(&self) -> (r: (u64, u64))
        ensures
            r.1 == PWM_PERIOD_MS * self.pwm_tx_duty_percent_spec() / 100,
            r.0 + r.1 == PWM_PERIOD_MS,
    {
        let high = PWM_PERIOD_MS * (self.pwm_tx_duty_percent() as u64) / 100;
        (PWM_PERIOD_MS - high, high)
    }

    /// The duty cycle, in percent high, that reports this position.
    pub open spec fn pwm_tx_duty_percent_spec(&self) -> u64 {
        match *self {
            ActuatorPosition::Unknown => 84,
            ActuatorPosition::Unlocked => 64,
            ActuatorPosition::Locked => 24,
        }
    }

    /// The position that a received duty cycle asks for, if any. The idle
    /// duty of 55 % asks for nothing.
    pub fn from_pwm_rx_duty_percent(pct: u32) -> (r: Option<ActuatorPosition>)
        ensures
            r == position_for_duty(pct),
    {
        if 20 < pct && pct < 30 {
            Some(ActuatorPosition::Unlocked)
        } else if 80 < pct && pct < 90 {
            Some(ActuatorPosition::Locked)
        } else {
            None
        }
    }
}

/// The emulated actuator and the last edges seen on the PWM request line.
#[derive(Clone, Copy, Debug)]
pub struct ActuatorState {
    pub position: ActuatorPosition,
    /// Last rising edge.
    pub rising: Option<Instant>,
    /// Last falling edge.
    pub falling: Option<Instant>,
}

/// The position that a falling edge at `ts` asks for. A cycle is measured
/// from falling edge to falling edge; one within a tenth of the nominal
/// period gives a duty cycle to decode, anything else reads as unknown.
pub open spec fn pwm_request(falling: Option<Instant>, rising: Option<Instant>, ts: Instant) -> Option<ActuatorPosition> {
    match (falling, rising) {
        (Some(f), Some(r)) => {
            if f <= ts && PWM_PERIOD_MS - PWM_PERIOD_MS / 10 < ts - f < PWM_PERIOD_MS + PWM_PERIOD_MS / 10 {
                if r <= ts && ts - r <= ts - f {
                    position_for_duty(((100 * (ts - r)) / (ts - f)) as u32)
                } else {
                    None
                }
            } else {
                Some(ActuatorPosition::Unknown)
            }
        },
        _ => Some(ActuatorPosition::Unknown),
    }
}

impl ActuatorState {
    /// Position unknown, no edges seen.
    pub fn default() -> (r: ActuatorState)
        ensures
            r.position == ActuatorPosition::Unknown,
            r.rising is None,
            r.falling is None,
    {
        ActuatorState { position: ActuatorPosition::Unknown, rising: None, falling: None }
    }

    /// The position that a new edge at `ts` asks for, if any. Only falling
    /// edges end a cycle.
    pub fn is_pwm_request(&self, rising: bool, ts: Instant) -> (r: Option<ActuatorPosition>)
        ensures
            rising ==> r is None,
            !rising ==> r == pwm_request(self.falling, self.rising, ts),
    {
        if rising {
            return None;
        }
        match (self.falling, self.rising) {
            (Some(f), Some(r)) => {
                let tolerance = PWM_PERIOD_MS / 10;
                if f <= ts && PWM_PERIOD_MS - tolerance < ts - f && ts - f < PWM_PERIOD_MS + tolerance {
                    let cycle = ts - f;
                    if r <= ts && ts - r <= cycle {
                        let high = ts - r;
                        assert(100 * high <= 100 * cycle) by (nonlinear_arith)
                            requires high <= cycle;
                        let duty = (100 * high) / cycle;
                        assert(duty <= 100) by (nonlinear_arith)
                            requires duty as int == (100 * high as int) / (cycle as int), high <= cycle, cycle > 0;
                        ActuatorPosition::from_pwm_rx_duty_percent(duty as u32)
                    } else {
                        None
                    }
                } else {
                    Some(ActuatorPosition::Unknown)
                }
            },
            _ => Some(ActuatorPosition::Unknown),
        }
    }

    /// Records an edge of the PWM request line at `now`.
    pub fn update_pwm_edge(&mut self, rising: bool, now: Instant)
        ensures
            rising ==> final(self).rising == Some(now) && final(self).falling == old(self).falling,
            !rising ==> final(self).falling == Some(now) && final(self).rising == old(self).rising,
            final(self).position == old(self).position,
    {
        if rising {
            self.rising = Some(now);
        } else {
            self.falling = Some(now);
        }
    }

    /// Handles an edge of the PWM request line at `now`. While IG3 is off
    /// the actuator is reset and edges are ignored; otherwise the position
    /// follows any request the edge completes, and the edge is recorded.
    pub fn on_pwm_edge(&mut self, ig3_on: bool, rising: bool, now: Instant)
        ensures
            !ig3_on ==> final(self).position == ActuatorPosition::Unknown && final(self).rising is None
                && final(self).falling is None,
            ig3_on && rising ==> final(self).position == old(self).position && final(self).rising == Some(now)
                && final(self).falling == old(self).falling,
            ig3_on && !rising ==> final(self).falling == Some(now) && final(self).rising == old(self).rising
                && final(self).position == (match pwm_request(old(self).falling, old(self).rising, now) {
                    Some(p) => p,
                    None => old(self).position,
                }),
    {
        if !ig3_on {
            *self = ActuatorState::default();
        } else {
            if let Some(p) = self.is_pwm_request(rising, now) {
                self.position = p;
            }
            self.update_pwm_edge(rising, now);
        }
    }
}

/// Handles a received CAN message: a lock or unlock request moves the
/// actuator; anything else leaves it be.
pub fn on_can_rx(msg: &PcanMessage, state: &mut ActuatorState)
    ensures
        final(state).rising == old(state).rising,
        final(state).falling == old(state).falling,
        final(state).position == (match *msg {
            PcanMessage::Vcu109 { park_request: ParkRequest::RequestLock } => ActuatorPosition::Locked,
            PcanMessage::Vcu109 { park_request: ParkRequest::RequestUnlock } => ActuatorPosition::Unlocked,
            _ => old(state).position,
        }),
{
    if let PcanMessage::Vcu109 { park_request } = msg {
        match park_request {
            ParkRequest::RequestLock => state.position = ActuatorPosition::Locked,
            ParkRequest::RequestUnlock => state.position = ActuatorPosition::Unlocked,
            ParkRequest::Other => {},
        }
    }
}

} // verus!
