//! The bare state machine, driven event by event.

use wake::{
    AgentCore, AgentError, AgentEvent, AgentRequest, AgentResponse, InternalAgentState,
    InternalAgentEvent, PublicAgentState, StepOutcome, TerminalReason, UserRequest, UserResponse,
    WaitKind,
};

#[test]
fn user_input_pause_and_correlation() {
    let mut core = AgentCore::new();
    core.handle_request(AgentRequest::StartTask {
        prompt: "collect requirements".to_string(),
    })
    .unwrap();
    core.handle_event(InternalAgentEvent::ThinkingStart).unwrap();
    assert_eq!(core.state(), InternalAgentState::Processing);

    core.handle_event(InternalAgentEvent::UserRequest(UserRequest {
        prompt: "which board?".to_string(),
    }))
    .unwrap();
    assert_eq!(core.state(), InternalAgentState::Paused);
    assert_eq!(core.waiting_on(), Some(WaitKind::User { id: 1 }));

    // A mismatched answer is rejected and changes nothing.
    let err = core
        .handle_event(InternalAgentEvent::UserResponse(UserResponse {
            id: 9,
            content: "esp32".to_string(),
        }))
        .unwrap_err();
    assert_eq!(
        err,
        AgentError::StaleCorrelation {
            expected: Some(1),
            got: 9
        }
    );
    assert_eq!(core.state(), InternalAgentState::Paused);

    core.handle_event(InternalAgentEvent::UserResponse(UserResponse {
        id: 1,
        content: "esp32".to_string(),
    }))
    .unwrap();
    assert_eq!(core.state(), InternalAgentState::Running);
    assert_eq!(core.notes().last().map(|s| s.as_str()), Some("esp32"));
    assert!(core.responses().contains(&AgentResponse::Event(
        AgentEvent::UserInputReceived { request_id: 1 }
    )));
}

#[test]
fn handlers_reject_wrong_states() {
    let mut core = AgentCore::new();
    // The running handler routed in the starting state reports it.
    let err = core
        .state_running_handle_event(InternalAgentEvent::ThinkingStart)
        .unwrap_err();
    assert_eq!(
        err,
        AgentError::InvalidState {
            current: PublicAgentState::Starting
        }
    );
    // The paused handler likewise.
    let err = core
        .state_paused_handle_event(InternalAgentEvent::CancelTask)
        .unwrap_err();
    assert_eq!(
        err,
        AgentError::InvalidState {
            current: PublicAgentState::Starting
        }
    );
}

#[test]
fn unexpected_events_are_absorbed() {
    let mut core = AgentCore::new();
    core.handle_request(AgentRequest::StartTask {
        prompt: "t".to_string(),
    })
    .unwrap();
    let before = core.responses().clone();
    // A step completion with no step in flight is logged and absorbed.
    core.handle_event(InternalAgentEvent::StepCompleted(StepOutcome::Continue {
        note: None,
    }))
    .unwrap();
    // A cancel with nothing to cancel is silently absorbed.
    core.handle_event(InternalAgentEvent::CancelTask).unwrap();
    assert_eq!(core.responses(), &before);
    assert_eq!(core.state(), InternalAgentState::Running);
}

#[test]
fn failed_step_reports_error_then_done() {
    let mut core = AgentCore::new();
    core.handle_request(AgentRequest::StartTask {
        prompt: "t".to_string(),
    })
    .unwrap();
    core.handle_event(InternalAgentEvent::ThinkingStart).unwrap();
    core.respond("partial thought".to_string()).unwrap();
    core.handle_event(InternalAgentEvent::StepCompleted(StepOutcome::Failed {
        error: wake::AgentExecutionError::BrainFailure {
            message: "model unreachable".to_string(),
        },
    }))
    .unwrap();
    assert_eq!(
        core.state(),
        InternalAgentState::Terminal {
            reason: TerminalReason::Failed
        }
    );
    let responses = core.responses();
    let n = responses.len();
    // The failure is reported once, immediately before the final Done.
    assert!(matches!(responses[n - 2], AgentResponse::Error(_)));
    assert!(matches!(responses[n - 1], AgentResponse::Done(_)));
}
