//! The readiness gate: after the network is joined, poll until address
//! configuration has completed.
//!
//! There is no deadline here. The poll asks the stack's "is configured"
//! predicate and either proceeds or waits one fixed interval and asks
//! again; if configuration never completes it polls forever.

use vstd::prelude::*;

verus! {

/// Interval between readiness polls, in milliseconds.
pub const POLL_INTERVAL_MS: u64 = 100;

/// What the readiness poll decides after one answer from the stack.
#[derive(Clone, Copy, Debug, PartialEq, Eq, Structural)]
pub enum GateDecision {
    /// Address configuration has completed: hand control onward.
    Proceed,
    /// Not configured yet: wait this many milliseconds, then poll again.
    WaitAndPoll(u64),
}

/// Decides on one poll's answer: proceed exactly when the stack reports
/// the address configured, otherwise wait the fixed interval and retry.
pub fn readiness_step(configured: bool) -> (d: GateDecision)
    ensures
        d == (if configured {
            GateDecision::Proceed
        } else {
            GateDecision::WaitAndPoll(POLL_INTERVAL_MS)
        }),
{
    if configured {
        GateDecision::Proceed
    } else {
        GateDecision::WaitAndPoll(POLL_INTERVAL_MS)
    }
}

} // verus!
