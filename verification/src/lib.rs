//! Background agent that captures profiling samples from a running process and
//! uploads them to a remote profiling service on the schedule that service
//! dictates.  The verified core is the control logic: the backoff generator,
//! the per-iteration decisions of the profiling loop, and the preparation of
//! the upload payload.  The host side (HTTP clients, the sampler, timers)
//! drives this logic from outside.

use vstd::prelude::*;

pub mod backoff;
pub mod control;
pub mod token;
pub mod upload;

verus! {

/// Profiler settings supplied by the host, re-read on every iteration so the
/// host can retune the agent without restarting it.
pub struct CloudProfilerConfiguration {
    pub sampling_rate: i32,
}

} // verus!
