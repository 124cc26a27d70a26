//! The emulated gateway and power module's handling of charge port
//! requests from the on-board charger.
use vstd::prelude::*;

use crate::car::{ChargeLock, PcanMessage};

verus! {

/// The charge port move that a received message asks for: lock or unlock
/// when the charger asks for exactly one of them, nothing when it asks for
/// neither or, invalidly, for both.
pub fn on_can_rx(msg: &PcanMessage) -> (r: Option<ChargeLock>)
    ensures
        r == (match *msg {
            PcanMessage::Obc58e { port_lock_req, port_unlock_req, .. } =>
                if port_lock_req && !port_unlock_req {
                    Some(ChargeLock::Locked)
                } else if port_unlock_req && !port_lock_req {
                    Some(ChargeLock::Unlocked)
                } else {
                    None
                },
            _ => None,
        }),
{
    match *msg {
        PcanMessage::Obc58e { port_lock_req, port_unlock_req, .. } => {
            if port_lock_req && port_unlock_req {
                None
            } else if port_lock_req {
                Some(ChargeLock::Locked)
            } else if port_unlock_req {
                Some(ChargeLock::Unlocked)
            } else {
                None
            }
        },
        _ => None,
    }
}

} // verus!
