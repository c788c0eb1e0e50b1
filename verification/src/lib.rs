//! Adaptive admission control for an unreliable downstream resource.
//!
//! A single coordinator issues at most one outstanding permit at a time to a
//! pool of concurrent callers, serving requests in arrival order. The delay
//! before the next permit adapts to the outcome the previous permit's holder
//! reports: exponential backoff (doubled, capped) after a failure, a fixed
//! steady pacing delay after a success, and no delay at all when a permit is
//! abandoned without an outcome.
//!
//! This crate holds the verified core: the pacing state machine and the
//! coordinator's request/permit protocol, both stated over plain values. The
//! asynchronous plumbing (queues, reply slots, timers) that drives the core
//! lives outside it and feeds it one event at a time.

use vstd::prelude::*;

pub mod coordinator;
pub mod pacing;

pub use coordinator::Coordinator;
pub use coordinator::Phase;
pub use pacing::Pacing;

verus! {

/// The two-valued signal a permit's holder reports back to the coordinator:
/// whether its interaction with the guarded resource succeeded or failed.
#[derive(Clone, Copy, PartialEq, Eq, Structural, Debug)]
pub enum Outcome {
    Success,
    Fail,
}

} // verus!
