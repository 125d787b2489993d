//! The brain (thinker) abstraction: given the conversation context, decide
//! the next action.  The brain holds no agent state beyond what the context
//! carries; in the surrounding system its `decide` is the principal
//! suspension point (a model call), so nothing is promised of its decisions —
//! the core is verified for every decision a brain can make.

use vstd::prelude::*;
use crate::states::PublicAgentState;
use crate::tools::{ToolCall, ToolSpec};

verus! {

/// The read-only view a brain receives for one decision.
#[derive(Clone, Debug)]
pub struct ThinkerContext {
    /// The task prompt, once one was accepted.
    pub task: Option<String>,
    /// The conversation notes so far: responses, tool outputs, user input.
    pub notes: Vec<String>,
    /// The tools available to the agent.
    pub tools: Vec<ToolSpec>,
    /// The host-visible state at decision time.
    pub state: PublicAgentState,
}

/// What the brain decided: call a tool, respond and keep going, or finish
/// the task.
#[derive(Clone, Debug, PartialEq)]
pub enum ThinkerDecision {
    CallTool(ToolCall),
    Respond { content: String },
    Finish { result: String },
}

/// What the decision means for the loop: go on at once, wait on a claim
/// before the tool may run, or stop.
#[derive(Clone, Copy, Debug, PartialEq, Eq, Structural)]
pub enum ThinkerFlowControl {
    Continue,
    WaitForClaim,
    Stop,
}

/// The flow a decision implies, given the available tools: finishing stops
/// the loop, responding continues it, and a tool call waits on a claim
/// exactly when the tool's declared capability requires one.
pub open spec fn spec_flow_of(decision: ThinkerDecision, tools: Seq<ToolSpec>) -> ThinkerFlowControl {
    match decision {
        ThinkerDecision::Finish { .. } => ThinkerFlowControl::Stop,
        ThinkerDecision::Respond { .. } => ThinkerFlowControl::Continue,
        ThinkerDecision::CallTool(call) => match crate::tools::spec_find_tool(tools, call.name@) {
            Some(t) => if t.capability.spec_requires_claim() {
                ThinkerFlowControl::WaitForClaim
            } else {
                ThinkerFlowControl::Continue
            },
            None => ThinkerFlowControl::Continue,
        },
    }
}

/// Compute the flow control a decision implies.
pub fn flow_of(decision: &ThinkerDecision, tools: &Vec<ToolSpec>) -> (r: ThinkerFlowControl)
    ensures
        r == spec_flow_of(*decision, tools@),
{
    match decision {
        ThinkerDecision::Finish { .. } => ThinkerFlowControl::Stop,
        ThinkerDecision::Respond { .. } => ThinkerFlowControl::Continue,
        ThinkerDecision::CallTool(call) => match crate::tools::find_tool(tools, &call.name) {
            Some(t) => if t.capability.requires_claim() {
                ThinkerFlowControl::WaitForClaim
            } else {
                ThinkerFlowControl::Continue
            },
            None => ThinkerFlowControl::Continue,
        },
    }
}

/// Decides the next action from the conversation context.  Implementations
/// may do anything (the real one calls a language model), so the trait
/// promises nothing about the decisions themselves.
pub trait Brain {
    fn decide(&mut self, context: &ThinkerContext) -> ThinkerDecision;
}

/// A brain that plays a fixed script of decisions, then finishes.  The stub
/// used to drive the core deterministically.
pub struct ScriptedBrain {
    script: Vec<ThinkerDecision>,
    next: usize,
}

impl ScriptedBrain {
    pub fn new(script: Vec<ThinkerDecision>) -> (r: ScriptedBrain) {
        ScriptedBrain { script, next: 0 }
    }

    /// A brain that immediately finishes with the given result.
    pub fn finishing(result: String) -> (r: ScriptedBrain) {
        let mut script: Vec<ThinkerDecision> = Vec::new();
        script.push(ThinkerDecision::Finish { result });
        ScriptedBrain { script, next: 0 }
    }
}

impl Brain for ScriptedBrain {
    fn decide(&mut self, context: &ThinkerContext) -> ThinkerDecision {
        let _ = context;
        if self.next < self.script.len() {
            let d = self.script[self.next].clone();
            self.next = self.next + 1;
            d
        } else {
            ThinkerDecision::Finish { result: String::new() }
        }
    }
}

} // verus!
