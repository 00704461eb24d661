//! Driver composition and peripheral sharing for an embedded kernel.
//!
//! Three mechanisms make up the core of this crate:
//!
//! - a one-shot static construction protocol: a component builder consumes
//!   caller-supplied write-once storage cells and produces exactly one
//!   initialized, long-lived driver instance from them;
//! - a shared-bus virtualization layer: one physical transaction-oriented
//!   bus is multiplexed across many independent logical device handles;
//! - a capability-gated grant registry: reserving per-process driver state
//!   requires presenting an unforgeable capability token.
//!
//! The dual-sensor driver in [`lsm303dlhc`] exemplifies how a peripheral
//! state machine is assembled over these mechanisms.

use vstd::prelude::*;

pub mod capability;
pub mod component;
pub mod grant;
pub mod lsm303dlhc;
pub mod lsm303xx;
pub mod mux;
pub mod sim;
pub mod storage;

verus! {

/// Errors surfaced by the composition and bus-sharing layers.
#[derive(Clone, Copy, Debug, PartialEq, Eq, Structural)]
pub enum ErrorCode {
    /// The addressed resource already has an outstanding request.
    Busy,
    /// A one-shot resource (a storage cell, a grant number) is already taken.
    Already,
    /// A completion was reported while no transaction was in flight.
    Idle,
}

} // verus!
