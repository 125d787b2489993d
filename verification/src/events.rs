//! The event and protocol vocabulary.
//!
//! `InternalAgentEvent` drives the state machine; `AgentEvent` is the
//! externally emitted, read-only progress stream; `AgentRequest` and
//! `AgentResponse` are the external control protocol a host speaks.

use vstd::prelude::*;
use crate::claims::{Capability, ClaimDecision};
use crate::errors::AgentExecutionError;
use crate::states::{InternalAgentState, TerminalReason};

verus! {

/// A step's request for permission to exercise a gated capability.
#[derive(Clone, Debug, PartialEq)]
pub struct PermissionRequest {
    pub capability: Capability,
    pub description: String,
}

/// A host's answer to a pending claim, by correlation id.
#[derive(Clone, Debug, PartialEq)]
pub struct PermissionResponse {
    pub id: u64,
    pub decision: ClaimDecision,
}

/// A step's request for input from the user.
#[derive(Clone, Debug, PartialEq)]
pub struct UserRequest {
    pub prompt: String,
}

/// The user's answer to an input request, by correlation id.
#[derive(Clone, Debug, PartialEq)]
pub struct UserResponse {
    pub id: u64,
    pub content: String,
}

/// What a completed step reported back to the core.
#[derive(Clone, Debug, PartialEq)]
pub enum StepOutcome {
    /// The step finished and the loop should schedule the next think.
    Continue { note: Option<String> },
    /// The brain signalled that the task is complete.
    Finished { result: String },
    /// The step failed fatally.
    Failed { error: AgentExecutionError },
}

/// The events the state machine consumes.  Each carries only the data needed
/// to apply it; events are ephemeral, never persisted.
#[derive(Clone, Debug, PartialEq)]
pub enum InternalAgentEvent {
    /// Abort the current task run.
    CancelTask,
    /// Schedule the next step while running.
    ThinkingStart,
    /// A step raised a claim for a gated capability.
    PermissionRequest(PermissionRequest),
    /// The host answered the pending claim.
    PermissionResponse(PermissionResponse),
    /// A step asked for user input.
    UserRequest(UserRequest),
    /// The user answered the pending input request.
    UserResponse(UserResponse),
    /// The configured permission wait elapsed.
    PermissionTimeout,
    /// A spawned step reported completion.
    StepCompleted(StepOutcome),
}

/// Externally observable progress, one entry per observable happening, in the
/// exact order the underlying transitions occurred.
#[derive(Clone, Debug, PartialEq)]
pub enum AgentEvent {
    /// The core moved between states.  Emitted for every state change and for
    /// nothing else, in transition order.
    StateChanged { from: InternalAgentState, to: InternalAgentState },
    /// A task was accepted and the run began.
    TaskStarted { prompt: String },
    /// A step was spawned.
    StepStarted,
    /// A response fragment produced by the brain.
    ResponseChunk { content: String },
    /// A claim was opened for a gated capability.
    PermissionRequested { claim_id: u64, capability: Capability, description: String },
    /// The pending claim was answered; `approved` records the verdict, so a
    /// denial is observable even though the gated action never runs.
    PermissionResolved { claim_id: u64, approved: bool },
    /// The pending claim timed out and was treated as a denial.
    PermissionExpired { claim_id: u64 },
    /// A step asked the user for input.
    UserInputRequested { request_id: u64, prompt: String },
    /// The pending user input request was answered.
    UserInputReceived { request_id: u64 },
}

/// The single authoritative end-of-task value; exists exactly once per task
/// run, created at the transition into the terminal state.  `content` is the
/// final answer and is present exactly when the run completed normally.
#[derive(Clone, Debug, PartialEq)]
pub struct TaskAgentResponse {
    pub reason: TerminalReason,
    pub content: Option<String>,
}

/// What a host may ask of the agent.
#[derive(Clone, Debug, PartialEq)]
pub enum AgentRequest {
    /// Begin the task run; valid only while starting.
    StartTask { prompt: String },
    /// Abort the task run; effective in every non-terminal state.
    Cancel,
    /// Answer the pending claim; must carry the pending claim's id.
    AnswerPermission { id: u64, decision: ClaimDecision },
    /// Stop the agent for good; equivalent to a cancel, absorbed once
    /// terminal.
    Shutdown,
}

/// What streams back to the host.  Handler-level misuse is returned to the
/// caller as an `AgentError` and never appears here; only step-level failures
/// are reported on the stream, once, right before the final `Done`.
#[derive(Clone, Debug, PartialEq)]
pub enum AgentResponse {
    /// The request passed validation and was applied.
    Accepted,
    /// One entry of the observable progress stream.
    Event(AgentEvent),
    /// The step failure that ends the run as failed.
    Error(AgentExecutionError),
    /// The single end-of-task signal.
    Done(TaskAgentResponse),
}

} // verus!
