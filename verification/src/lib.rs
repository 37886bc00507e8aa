//! A minimal request dispatcher: two HTTP endpoints, each backed by a
//! different execution strategy, under one hard wall-clock deadline.
//!
//! This crate holds the dispatcher's decision logic, fully verified:
//! routing, the deadline race, error translation, the sandboxed-invocation
//! state machine, and the per-request response lifecycle. The surrounding
//! process (socket binding, the async runtime, the sandbox runtime itself)
//! lives outside the library and consumes these functions.

use vstd::prelude::*;

pub mod failure;
pub mod lifecycle;
pub mod race;
pub mod response;
pub mod routes;
pub mod sandbox;
pub mod service;

verus! {

/// Wall-clock budget, in seconds, that the middleware grants every request.
pub const DEADLINE_SECS: u64 = 1;

/// Fixed suspension, in seconds, of the delay handler.
pub const DELAY_SECS: u64 = 2;

} // verus!
