//! Emulation core for a set of vehicle control units on one CAN bus: a
//! priority-ordered transmit queue, drift-free periodic scheduling, and a
//! shared vehicle state whose bus-derived fields go stale on their own.
//!
//! Time is a monotonic millisecond count (`Instant`), handed in by the caller
//! wherever a decision depends on it.
use vstd::prelude::*;

pub mod fresh;
pub mod frame;
pub mod can_queue;
pub mod periodic;
pub mod car;
pub mod inputs;
pub mod can_utils;
pub mod repeater;
pub mod every;
pub mod periodic_tick;
pub mod can_periodic;
pub mod shift_control;
pub mod igpm;
pub mod pcan;

verus! {

/// A point on the monotonic millisecond clock.
pub type Instant = u64;

/// A span of time in milliseconds.
pub type Duration = u64;

} // verus!
