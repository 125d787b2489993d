//! The agent lifecycle: building, starting, running to completion, and the
//! absorbing terminal state.

use wake::{
    flow_of, AgentBuilder, AgentEvent, AgentResponse, Capability, InternalAgentState,
    PublicAgentState, RecordingRunner, RunStatus, ScriptedBrain, TaskAgentResponse,
    TerminalReason, ThinkerDecision, ThinkerFlowControl, ToolCall, ToolSpec,
};

fn done_entries(responses: &Vec<AgentResponse>) -> Vec<&TaskAgentResponse> {
    responses
        .iter()
        .filter_map(|r| match r {
            AgentResponse::Done(d) => Some(d),
            _ => None,
        })
        .collect()
}

fn state_changes(responses: &Vec<AgentResponse>) -> Vec<(InternalAgentState, InternalAgentState)> {
    responses
        .iter()
        .filter_map(|r| match r {
            AgentResponse::Event(AgentEvent::StateChanged { from, to }) => Some((*from, *to)),
            _ => None,
        })
        .collect()
}

/// A builder with a stub brain that immediately finishes drives the core
/// from `Starting` through `Running` and `Processing` into
/// `Terminal { Completed }`, and emits exactly one `Done`.
#[test]
fn round_trip_finishing_brain() {
    let brain = ScriptedBrain::finishing("all done".to_string());
    let runner = RecordingRunner::new(String::new());
    let mut agent = AgentBuilder::new().build(brain, runner);

    assert_eq!(agent.agent_core().state(), InternalAgentState::Starting);
    agent.start("do the task".to_string()).unwrap();
    assert_eq!(agent.agent_core().state(), InternalAgentState::Running);

    let status = agent.run_until_blocked().unwrap();
    assert_eq!(
        status,
        RunStatus::Finished {
            reason: TerminalReason::Completed
        }
    );
    assert_eq!(
        agent.agent_core().state(),
        InternalAgentState::Terminal {
            reason: TerminalReason::Completed
        }
    );

    let responses = agent.agent_core().responses();
    let dones = done_entries(responses);
    assert_eq!(dones.len(), 1);
    assert_eq!(dones[0].reason, TerminalReason::Completed);
    assert_eq!(dones[0].content.as_deref(), Some("all done"));

    let changes = state_changes(responses);
    assert_eq!(
        changes,
        vec![
            (InternalAgentState::Starting, InternalAgentState::Running),
            (InternalAgentState::Running, InternalAgentState::Processing),
            (
                InternalAgentState::Processing,
                InternalAgentState::Terminal {
                    reason: TerminalReason::Completed
                }
            ),
        ]
    );
}

/// The terminal state absorbs: cancelling a finished run changes nothing and
/// no second `Done` ever appears.
#[test]
fn terminal_is_absorbing() {
    let brain = ScriptedBrain::finishing("done".to_string());
    let runner = RecordingRunner::new(String::new());
    let mut agent = AgentBuilder::new().build(brain, runner);
    agent.start("task".to_string()).unwrap();
    agent.run_until_blocked().unwrap();

    let stream_before = agent.agent_core().responses().clone();
    agent.cancel().unwrap();
    agent.shutdown().unwrap();
    let status = agent.run_until_blocked().unwrap();
    assert_eq!(
        status,
        RunStatus::Finished {
            reason: TerminalReason::Completed
        }
    );
    assert_eq!(agent.agent_core().responses(), &stream_before);
    assert_eq!(done_entries(agent.agent_core().responses()).len(), 1);
}

/// A cancel in a non-terminal state yields `Terminal { Cancelled }` and one
/// `Done` with no content.
#[test]
fn cancel_before_completion() {
    let brain = ScriptedBrain::new(vec![ThinkerDecision::Respond {
        content: "thinking".to_string(),
    }]);
    let runner = RecordingRunner::new(String::new());
    let mut agent = AgentBuilder::new().build(brain, runner);
    agent.start("task".to_string()).unwrap();
    agent.cancel().unwrap();
    assert_eq!(
        agent.agent_core().state(),
        InternalAgentState::Terminal {
            reason: TerminalReason::Cancelled
        }
    );
    let dones = done_entries(agent.agent_core().responses());
    assert_eq!(dones.len(), 1);
    assert_eq!(dones[0].reason, TerminalReason::Cancelled);
    assert_eq!(dones[0].content, None);
}

/// Starting twice is rejected: the second request reports the state it found
/// and changes nothing.
#[test]
fn start_twice_rejected() {
    let brain = ScriptedBrain::finishing("x".to_string());
    let runner = RecordingRunner::new(String::new());
    let mut agent = AgentBuilder::new().build(brain, runner);
    agent.start("first".to_string()).unwrap();
    let err = agent.start("second".to_string()).unwrap_err();
    assert_eq!(
        err,
        wake::AgentError::InvalidState {
            current: PublicAgentState::Working
        }
    );
}

/// An ungated tool runs without a claim; its output feeds the next think.
#[test]
fn ungated_tool_runs_directly() {
    let brain = ScriptedBrain::new(vec![
        ThinkerDecision::CallTool(ToolCall {
            name: "lookup".to_string(),
            arguments: "{}".to_string(),
        }),
        ThinkerDecision::Finish {
            result: "finished".to_string(),
        },
    ]);
    let runner = RecordingRunner::new("tool says hi".to_string());
    let mut agent = AgentBuilder::new()
        .with_tool("lookup".to_string(), Capability::Read)
        .build(brain, runner);
    agent.start("task".to_string()).unwrap();
    let status = agent.run_until_blocked().unwrap();
    assert_eq!(
        status,
        RunStatus::Finished {
            reason: TerminalReason::Completed
        }
    );
    assert_eq!(agent.runner().call_count(), 1);
    assert_eq!(agent.runner().calls()[0].name, "lookup");
    // No claim was ever opened.
    assert!(agent.agent_core().claim(1).is_none());
}

/// The step budget ends a run that would never finish, as a failure with a
/// timeout, still with exactly one `Done`.
#[test]
fn step_budget_exhaustion_fails_run() {
    let script: Vec<ThinkerDecision> = (0..50)
        .map(|i| ThinkerDecision::Respond {
            content: format!("step {}", i),
        })
        .collect();
    let brain = ScriptedBrain::new(script);
    let runner = RecordingRunner::new(String::new());
    let mut agent = AgentBuilder::new()
        .with_max_steps(10)
        .build(brain, runner);
    agent.start("task".to_string()).unwrap();
    let status = agent.run_until_blocked().unwrap();
    assert_eq!(
        status,
        RunStatus::Finished {
            reason: TerminalReason::Failed
        }
    );
    let responses = agent.agent_core().responses();
    let errors: Vec<_> = responses
        .iter()
        .filter(|r| matches!(r, AgentResponse::Error(_)))
        .collect();
    assert_eq!(errors.len(), 1);
    assert_eq!(done_entries(responses).len(), 1);
}

/// The flow a decision implies: finishing stops, responding continues, and a
/// tool call waits on a claim exactly when its capability is gated.
#[test]
fn flow_control_of_decisions() {
    let tools = vec![
        ToolSpec {
            name: "shell".to_string(),
            capability: Capability::Execute,
        },
        ToolSpec {
            name: "lookup".to_string(),
            capability: Capability::Read,
        },
    ];
    let finish = ThinkerDecision::Finish {
        result: "r".to_string(),
    };
    assert_eq!(flow_of(&finish, &tools), ThinkerFlowControl::Stop);
    let respond = ThinkerDecision::Respond {
        content: "c".to_string(),
    };
    assert_eq!(flow_of(&respond, &tools), ThinkerFlowControl::Continue);
    let gated = ThinkerDecision::CallTool(ToolCall {
        name: "shell".to_string(),
        arguments: String::new(),
    });
    assert_eq!(flow_of(&gated, &tools), ThinkerFlowControl::WaitForClaim);
    let ungated = ThinkerDecision::CallTool(ToolCall {
        name: "lookup".to_string(),
        arguments: String::new(),
    });
    assert_eq!(flow_of(&ungated, &tools), ThinkerFlowControl::Continue);
    let unknown = ThinkerDecision::CallTool(ToolCall {
        name: "nope".to_string(),
        arguments: String::new(),
    });
    assert_eq!(flow_of(&unknown, &tools), ThinkerFlowControl::Continue);
}
