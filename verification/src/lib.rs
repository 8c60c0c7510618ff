//! Resilient telemetry delivery pipeline.
//!
//! Telemetry packets (health snapshot, sensor readings, diagnostics) are
//! batched, optionally compressed, gated through a circuit breaker, and
//! dispatched to transport sinks; packets that cannot be delivered are held
//! in a bounded offline buffer for later retry.  The data model, the wire
//! codec, the failure-handling state machine and the dispatch bookkeeping
//! all live here with machine-checked contracts; the asynchronous plumbing
//! (channels, timers, file and network I/O) stays outside the library.

use vstd::prelude::*;

pub mod collector;
pub mod component;
pub mod config;
pub mod device;
pub mod logger;
pub mod metrics;
pub mod models;
pub mod mqtt;
pub mod peripherals;
pub mod registers;
pub mod resilience;
pub mod scheduler;
pub mod simulation;
pub mod streaming;
pub mod text;
pub mod traits;
pub mod transports;
pub mod types;
pub mod wire;

verus! {

/// Checked sum of two sizes.
pub fn add(left: usize, right: usize) -> (r: usize)
    requires
        left + right <= usize::MAX,
    ensures
        r == left + right,
{
    left + right
}

} // verus!
