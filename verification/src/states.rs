//! The agent core's state model: the exact internal states, the coarser
//! projection a host observes, and the terminal reasons.

use vstd::prelude::*;

verus! {

/// Why a task run ended.  A task run ends exactly once.
#[derive(Clone, Copy, Debug, PartialEq, Eq, Structural)]
pub enum TerminalReason {
    Completed,
    Cancelled,
    Failed,
}

/// The state owned exclusively by the agent core and mutated only by its own
/// event-handling code.
#[derive(Clone, Copy, Debug, PartialEq, Eq, Structural)]
pub enum InternalAgentState {
    /// Created, waiting for the initial task.
    Starting,
    /// A task is active and the core is between steps.
    Running,
    /// A step (a brain decision or a tool execution) is in flight.
    Processing,
    /// Waiting on a permission decision or on user input.
    Paused,
    /// The absorbing final state of the task run.
    Terminal { reason: TerminalReason },
}

/// The externally observable projection of `InternalAgentState`.  Derived on
/// demand, never independently mutated; it collapses the `Running` and
/// `Processing` distinction host code need not see.
#[derive(Clone, Copy, Debug, PartialEq, Eq, Structural)]
pub enum PublicAgentState {
    Starting,
    Working,
    WaitingForInput,
    Finished { reason: TerminalReason },
}

impl InternalAgentState {
    /// True of the absorbing final state.
    pub open spec fn is_terminal(self) -> bool {
        self matches InternalAgentState::Terminal { .. }
    }

    /// The projection `to_public` computes.
    pub open spec fn spec_to_public(&self) -> PublicAgentState {
        match self {
            InternalAgentState::Starting => PublicAgentState::Starting,
            InternalAgentState::Running => PublicAgentState::Working,
            InternalAgentState::Processing => PublicAgentState::Working,
            InternalAgentState::Paused => PublicAgentState::WaitingForInput,
            InternalAgentState::Terminal { reason } => PublicAgentState::Finished {
                reason: *reason,
            },
        }
    }

    /// Recompute the host-visible state from the internal one.
    #[verifier::when_used_as_spec(spec_to_public)]
    pub fn to_public(&self) -> (r: PublicAgentState)
        ensures
            r == self.spec_to_public(),
    {
        match self {
            InternalAgentState::Starting => PublicAgentState::Starting,
            InternalAgentState::Running => PublicAgentState::Working,
            InternalAgentState::Processing => PublicAgentState::Working,
            InternalAgentState::Paused => PublicAgentState::WaitingForInput,
            InternalAgentState::Terminal { reason } => PublicAgentState::Finished {
                reason: *reason,
            },
        }
    }
}

} // verus!
