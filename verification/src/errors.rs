//! The error taxonomy.
//!
//! `AgentError` marks protocol or state-machine misuse and is always returned
//! to the immediate caller.  `AgentExecutionError` marks a step-level failure
//! and is surfaced once through the response stream before the final `Done`.
//! `PermissionError` is local to the claim manager.

use vstd::prelude::*;
use crate::states::PublicAgentState;

verus! {

/// Protocol or state-machine misuse: an event routed to a state that cannot
/// accept it, or a response whose correlation id does not match what is
/// pending.  Returned to the caller; never placed on the response stream.
#[derive(Clone, Debug, PartialEq)]
pub enum AgentError {
    /// The core was asked to act in a state the request is not valid for.
    InvalidState { current: PublicAgentState },
    /// A permission or user response carried an id other than the pending
    /// one (`expected` is `None` when nothing of that kind is pending).
    StaleCorrelation { expected: Option<u64>, got: u64 },
}

/// A step-level failure: a brain (model) failure, an unrecoverable tool
/// failure, or a timeout.  Recorded as the reason for a `Terminal { Failed }`
/// transition and surfaced exactly once on the response stream.
#[derive(Clone, Debug, PartialEq)]
pub enum AgentExecutionError {
    BrainFailure { message: String },
    ToolFailure { tool: String, message: String },
    Timeout,
}

/// Claim-manager misuse.  Propagated to whichever caller attempted the
/// invalid operation, never silently swallowed.
#[derive(Clone, Copy, Debug, PartialEq, Eq, Structural)]
pub enum PermissionError {
    /// A second `request` while one claim is still pending.
    AlreadyPending,
    /// A resolution for an id that was never issued.
    UnknownClaim,
    /// A second resolution for an id that is no longer pending.
    AlreadyResolved,
}

} // verus!
