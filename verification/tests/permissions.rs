//! The permission protocol: claims, correlation ids, denial, expiry.

use wake::{
    AgentBuilder, AgentError, AgentEvent, AgentResponse, Capability, ClaimDecision, ClaimManager,
    ClaimStatus, InternalAgentState, PermissionError, RecordingRunner, RunStatus, ScriptedBrain,
    TerminalReason, ThinkerDecision, ToolCall,
};

fn gated_agent() -> wake::Agent<ScriptedBrain, RecordingRunner> {
    let brain = ScriptedBrain::new(vec![
        ThinkerDecision::CallTool(ToolCall {
            name: "shell".to_string(),
            arguments: "rm -rf /tmp/x".to_string(),
        }),
        ThinkerDecision::Finish {
            result: "wrapped up".to_string(),
        },
    ]);
    let runner = RecordingRunner::new("ran".to_string());
    AgentBuilder::new()
        .with_tool("shell".to_string(), Capability::Execute)
        .build(brain, runner)
}

/// Start task, brain requests a gated tool, a claim with id 1 is created,
/// the host denies it: the core resumes running, the denial is recorded on
/// the stream, and the tool is never executed.
#[test]
fn denied_claim_skips_tool() {
    let mut agent = gated_agent();
    agent.start("task".to_string()).unwrap();
    let status = agent.run_until_blocked().unwrap();
    assert_eq!(status, RunStatus::AwaitingPermission { claim_id: 1 });
    assert_eq!(agent.agent_core().state(), InternalAgentState::Paused);
    {
        let claim = agent.agent_core().pending_claim().unwrap();
        assert_eq!(claim.id, 1);
        assert_eq!(claim.capability, Capability::Execute);
        assert_eq!(claim.status, ClaimStatus::Pending);
    }

    agent.answer_permission(1, ClaimDecision::Denied).unwrap();
    assert_eq!(agent.agent_core().state(), InternalAgentState::Running);
    assert_eq!(agent.agent_core().claim(1).unwrap().status, ClaimStatus::Denied);
    assert!(agent.agent_core().responses().contains(&AgentResponse::Event(
        AgentEvent::PermissionResolved {
            claim_id: 1,
            approved: false
        }
    )));

    let status = agent.run_until_blocked().unwrap();
    assert_eq!(
        status,
        RunStatus::Finished {
            reason: TerminalReason::Completed
        }
    );
    // The gated tool never ran.
    assert_eq!(agent.runner().call_count(), 0);
}

/// An approved claim lets the tool run exactly once.
#[test]
fn approved_claim_runs_tool() {
    let mut agent = gated_agent();
    agent.start("task".to_string()).unwrap();
    agent.run_until_blocked().unwrap();
    agent.answer_permission(1, ClaimDecision::Approved).unwrap();
    assert_eq!(agent.agent_core().claim(1).unwrap().status, ClaimStatus::Approved);
    let status = agent.run_until_blocked().unwrap();
    assert_eq!(
        status,
        RunStatus::Finished {
            reason: TerminalReason::Completed
        }
    );
    assert_eq!(agent.runner().call_count(), 1);
    assert_eq!(agent.runner().calls()[0].name, "shell");
}

/// A permission answer with an id other than the pending claim's is always
/// rejected; the matching one is applied exactly once and a repeat is stale.
#[test]
fn mismatched_then_matching_response() {
    let mut agent = gated_agent();
    agent.start("task".to_string()).unwrap();
    agent.run_until_blocked().unwrap();

    let err = agent.answer_permission(7, ClaimDecision::Approved).unwrap_err();
    assert_eq!(
        err,
        AgentError::StaleCorrelation {
            expected: Some(1),
            got: 7
        }
    );
    assert_eq!(agent.agent_core().state(), InternalAgentState::Paused);

    agent.answer_permission(1, ClaimDecision::Approved).unwrap();
    let err = agent.answer_permission(1, ClaimDecision::Approved).unwrap_err();
    assert_eq!(
        err,
        AgentError::StaleCorrelation {
            expected: None,
            got: 1
        }
    );
}

/// Two `request` calls while one claim is pending: the second fails with
/// `AlreadyPending`, the first resolves normally.
#[test]
fn second_request_while_pending() {
    let mut claims = ClaimManager::new();
    let first = claims.request(Capability::Execute, "run a command".to_string());
    assert_eq!(first, Ok(1));
    let second = claims.request(Capability::Write, "edit a file".to_string());
    assert_eq!(second, Err(PermissionError::AlreadyPending));
    assert_eq!(claims.resolve(1, ClaimDecision::Approved), Ok(()));
    assert_eq!(claims.pending_id(), None);
    // After the first resolves, a new request is issued the next id.
    assert_eq!(claims.request(Capability::Write, "edit".to_string()), Ok(2));
}

/// Resolution is exactly-once: unknown ids and repeated resolutions are
/// rejected with their own errors.
#[test]
fn resolution_is_exactly_once() {
    let mut claims = ClaimManager::new();
    assert_eq!(
        claims.resolve(1, ClaimDecision::Approved),
        Err(PermissionError::UnknownClaim)
    );
    claims.request(Capability::Network, "fetch".to_string()).unwrap();
    assert_eq!(claims.resolve(99, ClaimDecision::Denied), Err(PermissionError::UnknownClaim));
    assert_eq!(claims.resolve(1, ClaimDecision::Denied), Ok(()));
    assert_eq!(
        claims.resolve(1, ClaimDecision::Approved),
        Err(PermissionError::AlreadyResolved)
    );
    assert_eq!(claims.get(1).unwrap().status, ClaimStatus::Denied);
}

/// A permission wait that exceeds the configured timeout expires the claim;
/// the core treats it as a denial and the task continues without hanging.
#[test]
fn expired_claim_continues_run() {
    let brain = ScriptedBrain::new(vec![
        ThinkerDecision::CallTool(ToolCall {
            name: "shell".to_string(),
            arguments: "date".to_string(),
        }),
        ThinkerDecision::Finish {
            result: "done anyway".to_string(),
        },
    ]);
    let runner = RecordingRunner::new("ran".to_string());
    let mut agent = AgentBuilder::new()
        .with_tool("shell".to_string(), Capability::Execute)
        .with_permission_timeout_ms(50)
        .build(brain, runner);
    assert_eq!(agent.permission_timeout_ms(), Some(50));

    agent.start("task".to_string()).unwrap();
    let status = agent.run_until_blocked().unwrap();
    assert_eq!(status, RunStatus::AwaitingPermission { claim_id: 1 });

    // The host observed the configured timeout elapsing.
    agent.permission_timed_out().unwrap();
    assert_eq!(agent.agent_core().state(), InternalAgentState::Running);
    assert_eq!(agent.agent_core().claim(1).unwrap().status, ClaimStatus::Expired);
    assert!(agent.agent_core().responses().contains(&AgentResponse::Event(
        AgentEvent::PermissionExpired { claim_id: 1 }
    )));

    let status = agent.run_until_blocked().unwrap();
    assert_eq!(
        status,
        RunStatus::Finished {
            reason: TerminalReason::Completed
        }
    );
    assert_eq!(agent.runner().call_count(), 0);
}

/// Cancelling while paused discards the pending claim and ends the run.
#[test]
fn cancel_while_paused_discards_claim() {
    let mut agent = gated_agent();
    agent.start("task".to_string()).unwrap();
    agent.run_until_blocked().unwrap();
    agent.cancel().unwrap();
    assert_eq!(
        agent.agent_core().state(),
        InternalAgentState::Terminal {
            reason: TerminalReason::Cancelled
        }
    );
    assert!(agent.agent_core().pending_claim().is_none());
    assert_eq!(agent.agent_core().claim(1).unwrap().status, ClaimStatus::Expired);
    assert_eq!(agent.runner().call_count(), 0);
}

/// A user answer while the core waits on a claim is a stray response: it is
/// rejected and nothing changes.
#[test]
fn user_answer_during_claim_wait_is_stray() {
    let mut agent = gated_agent();
    agent.start("task".to_string()).unwrap();
    agent.run_until_blocked().unwrap();
    let err = agent.answer_user(1, "not what is pending".to_string()).unwrap_err();
    assert_eq!(
        err,
        AgentError::StaleCorrelation {
            expected: None,
            got: 1
        }
    );
    assert_eq!(agent.agent_core().state(), InternalAgentState::Paused);
}
