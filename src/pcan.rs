//! What happens to a decoded inbound message: the vehicle state, the
//! emulated parking actuator and the charge port each take what concerns
//! them.
use vstd::prelude::*;

use crate::car::{update_spec, Anomaly, CarState, ChargeLock, PcanMessage};
use crate::frame::{is_diagnostic, FrameId, DIAGNOSTIC_ID_MIN};
use crate::shift_control::{ActuatorPosition, ActuatorState, ParkRequest};
use crate::Instant;

verus! {

/// The effects of one inbound message that the caller acts on.
#[derive(Clone, Copy, Debug)]
pub struct RxEffects {
    /// Anything unusual the vehicle state noticed.
    pub anomaly: Anomaly,
    /// A charge port move to start, if the charger asked for one.
    pub charge_port: Option<ChargeLock>,
}

/// How `handle_message` changes the state and what it returns.
pub open spec fn handle_spec(
    car0: CarState, car1: CarState, act0: ActuatorState, act1: ActuatorState, msg: PcanMessage, now: Instant, r: RxEffects,
) -> bool {
    &&& update_spec(car0, car1, msg, now, r.anomaly)
    &&& r.charge_port == (match msg {
        PcanMessage::Obc58e { port_lock_req, port_unlock_req, .. } =>
            if port_lock_req && !port_unlock_req {
                Some(ChargeLock::Locked)
            } else if port_unlock_req && !port_lock_req {
                Some(ChargeLock::Unlocked)
            } else {
                None
            },
        _ => None,
    })
    &&& act1.rising == act0.rising
    &&& act1.falling == act0.falling
    &&& act1.position == (match msg {
        PcanMessage::Vcu109 { park_request: ParkRequest::RequestLock } => ActuatorPosition::Locked,
        PcanMessage::Vcu109 { park_request: ParkRequest::RequestUnlock } => ActuatorPosition::Unlocked,
        _ => act0.position,
    })
}

/// Applies a decoded message received at `now` to the vehicle state and the
/// parking actuator, and returns what the caller still has to do.
pub fn handle_message(car: &mut CarState, actuator: &mut ActuatorState, msg: &PcanMessage, now: Instant) -> (r: RxEffects)
    ensures
        handle_spec(*old(car), *final(car), *old(actuator), *final(actuator), *msg, now, r),
{
    let anomaly = car.update_state(msg, now);
    crate::shift_control::on_can_rx(msg, actuator);
    let charge_port = crate::igpm::on_can_rx(msg);
    RxEffects { anomaly, charge_port }
}

/// What became of a received frame.
#[derive(Clone, Copy, Debug)]
pub enum RxOutcome {
    /// Its identifier is in the diagnostic range: skipped.
    Diagnostic,
    /// It could not be decoded: discarded.
    Undecodable,
    /// It was decoded and applied.
    Handled(RxEffects),
}

/// Handles a frame received at `now` with identifier `id`, given what the
/// message decoder made of it. Diagnostic frames and frames that failed to
/// decode leave the state untouched.
pub fn on_pcan_rx(
    car: &mut CarState, actuator: &mut ActuatorState, id: FrameId, decoded: Option<PcanMessage>, now: Instant,
) -> (r: RxOutcome)
    ensures
        (id matches FrameId::Standard(s) && s >= DIAGNOSTIC_ID_MIN) ==> r is Diagnostic
            && *final(car) == *old(car) && *final(actuator) == *old(actuator),
        !(id matches FrameId::Standard(s) && s >= DIAGNOSTIC_ID_MIN) && decoded is None ==> r is Undecodable
            && *final(car) == *old(car) && *final(actuator) == *old(actuator),
        !(id matches FrameId::Standard(s) && s >= DIAGNOSTIC_ID_MIN) && decoded is Some ==> (r matches RxOutcome::Handled(e)
            && handle_spec(*old(car), *final(car), *old(actuator), *final(actuator), decoded->0, now, e)),
{
    if is_diagnostic(id) {
        return RxOutcome::Diagnostic;
    }
    match decoded {
        None => RxOutcome::Undecodable,
        Some(msg) => RxOutcome::Handled(handle_message(car, actuator, &msg, now)),
    }
}

} // verus!
