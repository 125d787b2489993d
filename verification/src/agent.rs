//! The agent core: the state machine that owns one agent's lifecycle.
//!
//! The core holds exactly one `InternalAgentState`, applies one event at a
//! time, and emits an append-only stream of `AgentResponse` values.  Its
//! well-formedness invariant ties the stream to the run's actual history of
//! states: the stream's `StateChanged` entries are exactly the transitions
//! that occurred, in order, and a `Done` entry exists exactly once the state
//! is terminal — so the stream can neither reorder, duplicate nor invent
//! transitions, and a second `Done` can never appear.

use vstd::prelude::*;
use crate::brain::{Brain, ThinkerContext, ThinkerDecision};
use crate::builder::{AgentConfig, LoggingConfig};
use crate::claims::{Capability, Claim, ClaimDecision, ClaimManager};
use crate::errors::{AgentError, AgentExecutionError};
use crate::events::{
    AgentEvent, AgentRequest, AgentResponse, InternalAgentEvent, StepOutcome, TaskAgentResponse,
};
use crate::states::{InternalAgentState, PublicAgentState, TerminalReason};
use crate::tools::{ToolCall, ToolResult, ToolRunner, ToolSpec};

verus! {

/// What the core is paused on: the pending claim or the pending user input
/// request, by correlation id.
#[derive(Clone, Copy, Debug, PartialEq, Eq, Structural)]
pub enum WaitKind {
    Claim { id: u64 },
    User { id: u64 },
}

/// The state-change entries of a response stream, in stream order.
pub open spec fn state_changes(s: Seq<AgentResponse>) -> Seq<
    (InternalAgentState, InternalAgentState),
>
    decreases s.len(),
{
    if s.len() == 0 {
        Seq::empty()
    } else {
        state_changes(s.drop_last()) + change_entry(s.last())
    }
}

/// The transition one stream entry records: a singleton for a `StateChanged`
/// event, empty for everything else.
pub open spec fn change_entry(r: AgentResponse) -> Seq<(InternalAgentState, InternalAgentState)> {
    match r {
        AgentResponse::Event(AgentEvent::StateChanged { from, to }) => seq![(from, to)],
        _ => Seq::empty(),
    }
}

/// How many `Done` entries a response stream holds.
pub open spec fn done_count(s: Seq<AgentResponse>) -> nat
    decreases s.len(),
{
    if s.len() == 0 {
        0
    } else {
        done_count(s.drop_last()) + (if s.last() is Done {
            1nat
        } else {
            0nat
        })
    }
}

/// The adjacent pairs of a history of states: the transitions the run made,
/// oldest first.
pub open spec fn transition_pairs(h: Seq<InternalAgentState>) -> Seq<
    (InternalAgentState, InternalAgentState),
>
    decreases h.len(),
{
    if h.len() <= 1 {
        Seq::empty()
    } else {
        transition_pairs(h.drop_last()) + seq![(h[h.len() - 2], h[h.len() - 1])]
    }
}

proof fn lemma_stream_push(s: Seq<AgentResponse>, r: AgentResponse)
    ensures
        state_changes(s.push(r)) == state_changes(s) + change_entry(r),
        done_count(s.push(r)) == done_count(s) + (if r is Done {
            1nat
        } else {
            0nat
        }),
{
    assert(s.push(r).drop_last() =~= s);
    assert(s.push(r).last() == r);
}

proof fn lemma_transition_pairs_push(h: Seq<InternalAgentState>, st: InternalAgentState)
    requires
        h.len() >= 1,
    ensures
        transition_pairs(h.push(st)) == transition_pairs(h) + seq![(h.last(), st)],
{
    assert(h.push(st).drop_last() =~= h);
    assert(h.push(st).last() == st);
    assert(h.push(st)[h.push(st).len() - 2] == h.last());
}

/// The state machine.  The state is owned exclusively by the core and
/// mutated only by its own event-handling code; every mutation is recorded
/// on the response stream.
pub struct AgentCore {
    state: InternalAgentState,
    claims: ClaimManager,
    task: Option<String>,
    notes: Vec<String>,
    waiting: Option<WaitKind>,
    next_user_id: u64,
    last_resolution: Option<(u64, bool)>,
    outbox: Vec<AgentResponse>,
    history: Ghost<Seq<InternalAgentState>>,
}

impl AgentCore {
    /// The current internal state.
    pub closed spec fn spec_state(&self) -> InternalAgentState {
        self.state
    }

    /// Everything emitted to the host so far, oldest first.
    pub closed spec fn stream(&self) -> Seq<AgentResponse> {
        self.outbox@
    }

    /// Every state the run has been in, oldest first (ghost bookkeeping).
    pub closed spec fn states_history(&self) -> Seq<InternalAgentState> {
        self.history@
    }

    /// The claims issued over this run, in order of issue.
    pub closed spec fn claims_seq(&self) -> Seq<Claim> {
        self.claims@
    }

    /// The id of the pending claim, if one is outstanding.
    pub closed spec fn pending_claim_id(&self) -> Option<u64> {
        self.claims.spec_pending_id()
    }

    /// What the core is paused on, if anything.
    pub closed spec fn spec_waiting(&self) -> Option<WaitKind> {
        self.waiting
    }

    /// The task prompt, once one was accepted.
    pub closed spec fn spec_task(&self) -> Option<String> {
        self.task
    }

    /// The conversation notes gathered for the brain so far.
    pub closed spec fn spec_notes(&self) -> Seq<String> {
        self.notes@
    }

    /// The id the next user-input request will carry.
    pub closed spec fn spec_next_user_id(&self) -> u64 {
        self.next_user_id
    }

    /// The not-yet-consumed outcome of the last claim resolution: the claim
    /// id and whether it was approved.
    pub closed spec fn spec_resolution(&self) -> Option<(u64, bool)> {
        self.last_resolution
    }

    /// The core's invariant.  The stream mirrors the history of states
    /// exactly; a `Done` entry exists exactly once the run is terminal; the
    /// pause bookkeeping and the claim manager agree.
    pub open spec fn wf(&self) -> bool {
        &&& self.claims_wf()
        &&& self.states_history().len() >= 1
        &&& self.states_history()[0] == InternalAgentState::Starting
        &&& self.states_history().last() == self.spec_state()
        &&& state_changes(self.stream()) == transition_pairs(self.states_history())
        &&& done_count(self.stream()) == (if self.spec_state().is_terminal() {
            1nat
        } else {
            0nat
        })
        &&& (self.spec_state() is Paused <==> self.spec_waiting() is Some)
        &&& match self.spec_waiting() {
            Some(WaitKind::Claim { id }) => self.pending_claim_id() == Some(id),
            _ => self.pending_claim_id() is None,
        }
    }

    /// The claim manager's own invariant, re-exposed.
    pub closed spec fn claims_wf(&self) -> bool {
        self.claims.wf()
    }

    /// Whether the id space still has room for one more claim.
    pub open spec fn can_issue_claim(&self) -> bool {
        self.claims_seq().len() + 1 < u64::MAX
    }

    /// A fresh core: starting state, empty stream, no claims.
    pub fn new() -> (r: AgentCore)
        ensures
            r.wf(),
            r.spec_state() == InternalAgentState::Starting,
            r.stream() == Seq::<AgentResponse>::empty(),
            r.claims_seq() == Seq::<Claim>::empty(),
            r.spec_task() is None,
            r.spec_resolution() is None,
            r.spec_next_user_id() == 1,
            r.states_history() == seq![InternalAgentState::Starting],
    {
        let ghost h: Seq<InternalAgentState> = seq![InternalAgentState::Starting];
        let core = AgentCore {
            state: InternalAgentState::Starting,
            claims: ClaimManager::new(),
            task: None,
            notes: Vec::new(),
            waiting: None,
            next_user_id: 1,
            last_resolution: None,
            outbox: Vec::new(),
            history: Ghost(h),
        };
        proof {
            assert(state_changes(core.outbox@) =~= transition_pairs(core.history@));
        }
        core
    }

    /// The current externally observable state.
    pub fn public_state(&self) -> (r: PublicAgentState)
        ensures
            r == self.spec_state().spec_to_public(),
    {
        self.state.to_public()
    }

    /// The current internal state.
    pub fn state(&self) -> (r: InternalAgentState)
        ensures
            r == self.spec_state(),
    {
        self.state
    }

    /// Everything emitted so far; the host-visible stream.
    pub fn responses(&self) -> (r: &Vec<AgentResponse>)
        ensures
            r@ == self.stream(),
    {
        &self.outbox
    }

    /// The pending claim, if the core is paused on one.
    pub fn pending_claim(&self) -> (r: Option<&Claim>)
        requires
            self.wf(),
        ensures
            match r {
                Some(c) => self.pending_claim_id() == Some(c.id) && *c == self.claims_seq()[c.id
                    - 1],
                None => self.pending_claim_id() is None,
            },
    {
        self.claims.pending()
    }

    /// Look a claim of this run up by its correlation id.
    pub fn claim(&self, id: u64) -> (r: Option<&Claim>)
        requires
            self.wf(),
        ensures
            match r {
                Some(c) => 1 <= id <= self.claims_seq().len() && *c == self.claims_seq()[id - 1],
                None => id == 0 || id > self.claims_seq().len(),
            },
    {
        self.claims.get(id)
    }

    /// What the core is paused on, if anything.
    pub fn waiting_on(&self) -> (r: Option<WaitKind>)
        ensures
            r == self.spec_waiting(),
    {
        self.waiting
    }

    /// The task prompt, once one was accepted.
    pub fn task(&self) -> (r: &Option<String>)
        ensures
            *r == self.spec_task(),
    {
        &self.task
    }

    /// The conversation notes gathered so far.
    pub fn notes(&self) -> (r: &Vec<String>)
        ensures
            r@ == self.spec_notes(),
    {
        &self.notes
    }

    /// Hand the driver the outcome of the last claim resolution, once.
    pub fn take_resolution(&mut self) -> (r: Option<(u64, bool)>)
        requires
            old(self).wf(),
        ensures
            final(self).wf(),
            r == old(self).spec_resolution(),
            final(self).spec_resolution() is None,
            final(self).spec_state() == old(self).spec_state(),
            final(self).stream() == old(self).stream(),
            final(self).states_history() == old(self).states_history(),
            final(self).claims_seq() == old(self).claims_seq(),
            final(self).pending_claim_id() == old(self).pending_claim_id(),
            final(self).spec_waiting() == old(self).spec_waiting(),
            final(self).spec_task() == old(self).spec_task(),
            final(self).spec_notes() == old(self).spec_notes(),
            final(self).spec_next_user_id() == old(self).spec_next_user_id(),
    {
        self.last_resolution.take()
    }

    /// Append one informational entry (never `StateChanged`, never `Done`) to
    /// the stream.
    fn emit_info(&mut self, e: AgentEvent)
        requires
            !(e matches AgentEvent::StateChanged { .. }),
        ensures
            *final(self) == (AgentCore {
                outbox: final(self).outbox,
                ..*old(self)
            }),
            final(self).stream() == old(self).stream().push(AgentResponse::Event(e)),
            state_changes(final(self).stream()) == state_changes(old(self).stream()),
            done_count(final(self).stream()) == done_count(old(self).stream()),
    {
        proof {
            lemma_stream_push(self.outbox@, AgentResponse::Event(e));
        }
        self.outbox.push(AgentResponse::Event(e));
    }

    /// Move to a new non-terminal state, recording the transition on the
    /// stream and in the history.
    fn transition(&mut self, to: InternalAgentState)
        requires
            old(self).states_history().len() >= 1,
            old(self).states_history().last() == old(self).spec_state(),
            !to.is_terminal(),
        ensures
            *final(self) == (AgentCore {
                state: final(self).state,
                outbox: final(self).outbox,
                history: final(self).history,
                ..*old(self)
            }),
            final(self).spec_state() == to,
            final(self).states_history() == old(self).states_history().push(to),
            final(self).stream() == old(self).stream().push(
                AgentResponse::Event(
                    AgentEvent::StateChanged { from: old(self).spec_state(), to },
                ),
            ),
            state_changes(final(self).stream()) == state_changes(old(self).stream())
                + seq![(old(self).spec_state(), to)],
            transition_pairs(final(self).states_history()) == transition_pairs(
                old(self).states_history(),
            ) + seq![(old(self).spec_state(), to)],
            done_count(final(self).stream()) == done_count(old(self).stream()),
    {
        let from = self.state;
        let entry = AgentResponse::Event(AgentEvent::StateChanged { from, to });
        proof {
            lemma_stream_push(self.outbox@, entry);
            lemma_transition_pairs_push(self.history@, to);
        }
        self.outbox.push(entry);
        self.state = to;
        self.history = Ghost(self.history@.push(to));
    }

    /// Move to the terminal state for `reason`, recording the transition,
    /// the step failure if one ended the run, and the single `Done`.
    fn finish(&mut self, reason: TerminalReason, content: Option<String>, error: Option<
        AgentExecutionError,
    >)
        requires
            old(self).states_history().len() >= 1,
            old(self).states_history().last() == old(self).spec_state(),
        ensures
            *final(self) == (AgentCore {
                state: final(self).state,
                outbox: final(self).outbox,
                history: final(self).history,
                ..*old(self)
            }),
            final(self).spec_state() == (InternalAgentState::Terminal { reason }),
            final(self).states_history() == old(self).states_history().push(
                InternalAgentState::Terminal { reason },
            ),
            final(self).stream() == (match error {
                Some(e) => old(self).stream().push(
                    AgentResponse::Event(
                        AgentEvent::StateChanged {
                            from: old(self).spec_state(),
                            to: InternalAgentState::Terminal { reason },
                        },
                    ),
                ).push(AgentResponse::Error(e)).push(
                    AgentResponse::Done(TaskAgentResponse { reason, content }),
                ),
                None => old(self).stream().push(
                    AgentResponse::Event(
                        AgentEvent::StateChanged {
                            from: old(self).spec_state(),
                            to: InternalAgentState::Terminal { reason },
                        },
                    ),
                ).push(AgentResponse::Done(TaskAgentResponse { reason, content })),
            }),
            state_changes(final(self).stream()) == state_changes(old(self).stream())
                + seq![(old(self).spec_state(), InternalAgentState::Terminal { reason })],
            transition_pairs(final(self).states_history()) == transition_pairs(
                old(self).states_history(),
            ) + seq![(old(self).spec_state(), InternalAgentState::Terminal { reason })],
            done_count(final(self).stream()) == done_count(old(self).stream()) + 1,
    {
        let to = InternalAgentState::Terminal { reason };
        let entry = AgentResponse::Event(AgentEvent::StateChanged { from: self.state, to });
        proof {
            lemma_stream_push(self.outbox@, entry);
            lemma_transition_pairs_push(self.history@, to);
        }
        self.outbox.push(entry);
        self.state = to;
        self.history = Ghost(self.history@.push(to));
        match error {
            Some(e) => {
                proof {
                    lemma_stream_push(self.outbox@, AgentResponse::Error(e));
                }
                self.outbox.push(AgentResponse::Error(e));
            },
            None => {},
        }
        let done = AgentResponse::Done(TaskAgentResponse { reason, content });
        proof {
            lemma_stream_push(self.outbox@, done);
        }
        self.outbox.push(done);
    }
}

/// The parts an event application never touches: the claims ledger, the task,
/// the notes, the pause bookkeeping and the undelivered resolution.
pub open spec fn same_bookkeeping(pre: &AgentCore, post: &AgentCore) -> bool {
    &&& post.claims_seq() == pre.claims_seq()
    &&& post.pending_claim_id() == pre.pending_claim_id()
    &&& post.spec_waiting() == pre.spec_waiting()
    &&& post.spec_task() == pre.spec_task()
    &&& post.spec_notes() == pre.spec_notes()
    &&& post.spec_resolution() == pre.spec_resolution()
    &&& post.spec_next_user_id() == pre.spec_next_user_id()
}

/// The run was cancelled: one transition into `Terminal { Cancelled }`, one
/// `Done`, and the pending claim (if any) discarded as expired.
pub open spec fn cancelled_post(pre: &AgentCore, post: &AgentCore) -> bool {
    let to = InternalAgentState::Terminal { reason: TerminalReason::Cancelled };
    &&& post.spec_state() == to
    &&& post.states_history() == pre.states_history().push(to)
    &&& post.stream() == pre.stream().push(
        AgentResponse::Event(AgentEvent::StateChanged { from: pre.spec_state(), to }),
    ).push(
        AgentResponse::Done(
            TaskAgentResponse { reason: TerminalReason::Cancelled, content: None },
        ),
    )
    &&& post.spec_waiting() is None
    &&& post.pending_claim_id() is None
    &&& match pre.pending_claim_id() {
        Some(id) => post.claims_seq() == pre.claims_seq().update(
            id - 1,
            Claim { status: crate::claims::ClaimStatus::Expired, ..pre.claims_seq()[id - 1] },
        ),
        None => post.claims_seq() == pre.claims_seq(),
    }
    &&& post.spec_task() == pre.spec_task()
    &&& post.spec_notes() == pre.spec_notes()
    &&& post.spec_next_user_id() == pre.spec_next_user_id()
}

/// A task was accepted while starting: the prompt is recorded, `TaskStarted`
/// is emitted, and the core moves to `Running`.
pub open spec fn started_post(pre: &AgentCore, post: &AgentCore, prompt: String) -> bool {
    &&& post.spec_state() is Running
    &&& post.spec_task() == Some(prompt)
    &&& post.states_history() == pre.states_history().push(InternalAgentState::Running)
    &&& post.stream() == pre.stream().push(
        AgentResponse::Event(AgentEvent::TaskStarted { prompt }),
    ).push(
        AgentResponse::Event(
            AgentEvent::StateChanged {
                from: InternalAgentState::Starting,
                to: InternalAgentState::Running,
            },
        ),
    )
    &&& post.claims_seq() == pre.claims_seq()
    &&& post.pending_claim_id() == pre.pending_claim_id()
    &&& post.spec_waiting() == pre.spec_waiting()
    &&& post.spec_notes() == pre.spec_notes()
    &&& post.spec_resolution() == pre.spec_resolution()
    &&& post.spec_next_user_id() == pre.spec_next_user_id()
}

/// A step was scheduled while running: `StepStarted` is emitted and the core
/// moves to `Processing`.
pub open spec fn step_started_post(pre: &AgentCore, post: &AgentCore) -> bool {
    &&& post.spec_state() is Processing
    &&& post.states_history() == pre.states_history().push(InternalAgentState::Processing)
    &&& post.stream() == pre.stream().push(
        AgentResponse::Event(AgentEvent::StepStarted),
    ).push(
        AgentResponse::Event(
            AgentEvent::StateChanged {
                from: InternalAgentState::Running,
                to: InternalAgentState::Processing,
            },
        ),
    )
    &&& same_bookkeeping(pre, post)
}

/// A step completed and the loop goes on: the note (if any) joins the
/// conversation notes and the core returns to `Running`.
pub open spec fn continue_post(pre: &AgentCore, post: &AgentCore, note: Option<String>) -> bool {
    &&& post.spec_state() is Running
    &&& post.states_history() == pre.states_history().push(InternalAgentState::Running)
    &&& post.stream() == pre.stream().push(
        AgentResponse::Event(
            AgentEvent::StateChanged {
                from: InternalAgentState::Processing,
                to: InternalAgentState::Running,
            },
        ),
    )
    &&& post.spec_notes() == (match note {
        Some(n) => pre.spec_notes().push(n),
        None => pre.spec_notes(),
    })
    &&& post.claims_seq() == pre.claims_seq()
    &&& post.pending_claim_id() == pre.pending_claim_id()
    &&& post.spec_waiting() == pre.spec_waiting()
    &&& post.spec_task() == pre.spec_task()
    &&& post.spec_resolution() == pre.spec_resolution()
    &&& post.spec_next_user_id() == pre.spec_next_user_id()
}

/// The brain signalled completion: one transition into
/// `Terminal { Completed }` and one `Done` carrying the final result — the
/// single `TaskAgentResponse` of the run.
pub open spec fn completed_post(pre: &AgentCore, post: &AgentCore, result: String) -> bool {
    let to = InternalAgentState::Terminal { reason: TerminalReason::Completed };
    &&& post.spec_state() == to
    &&& post.states_history() == pre.states_history().push(to)
    &&& post.stream() == pre.stream().push(
        AgentResponse::Event(AgentEvent::StateChanged { from: pre.spec_state(), to }),
    ).push(
        AgentResponse::Done(
            TaskAgentResponse { reason: TerminalReason::Completed, content: Some(result) },
        ),
    )
    &&& same_bookkeeping(pre, post)
}

/// A step failed fatally: one transition into `Terminal { Failed }`, the
/// failure reported once, then the single `Done`.
pub open spec fn failed_post(pre: &AgentCore, post: &AgentCore, error: AgentExecutionError) -> bool {
    let to = InternalAgentState::Terminal { reason: TerminalReason::Failed };
    &&& post.spec_state() == to
    &&& post.states_history() == pre.states_history().push(to)
    &&& post.stream() == pre.stream().push(
        AgentResponse::Event(AgentEvent::StateChanged { from: pre.spec_state(), to }),
    ).push(AgentResponse::Error(error)).push(
        AgentResponse::Done(TaskAgentResponse { reason: TerminalReason::Failed, content: None }),
    )
    &&& same_bookkeeping(pre, post)
}

/// A step raised a claim: the next id is issued, the claim is pending, and
/// the core pauses on it.
pub open spec fn claim_opened_post(
    pre: &AgentCore,
    post: &AgentCore,
    capability: Capability,
    description: String,
) -> bool {
    let id = (pre.claims_seq().len() + 1) as u64;
    &&& post.spec_state() is Paused
    &&& post.states_history() == pre.states_history().push(InternalAgentState::Paused)
    &&& post.claims_seq() == pre.claims_seq().push(
        Claim { id, capability, description, status: crate::claims::ClaimStatus::Pending },
    )
    &&& post.pending_claim_id() == Some(id)
    &&& post.spec_waiting() == Some(WaitKind::Claim { id })
    &&& post.stream() == pre.stream().push(
        AgentResponse::Event(
            AgentEvent::PermissionRequested { claim_id: id, capability, description },
        ),
    ).push(
        AgentResponse::Event(
            AgentEvent::StateChanged {
                from: InternalAgentState::Processing,
                to: InternalAgentState::Paused,
            },
        ),
    )
    &&& post.spec_task() == pre.spec_task()
    &&& post.spec_notes() == pre.spec_notes()
    &&& post.spec_resolution() == pre.spec_resolution()
    &&& post.spec_next_user_id() == pre.spec_next_user_id()
}

/// A step asked for user input: the next request id is issued and the core
/// pauses on it.
pub open spec fn user_wait_post(pre: &AgentCore, post: &AgentCore, prompt: String) -> bool {
    let id = pre.spec_next_user_id();
    &&& post.spec_state() is Paused
    &&& post.states_history() == pre.states_history().push(InternalAgentState::Paused)
    &&& post.spec_waiting() == Some(WaitKind::User { id })
    &&& post.spec_next_user_id() == id + 1
    &&& post.stream() == pre.stream().push(
        AgentResponse::Event(AgentEvent::UserInputRequested { request_id: id, prompt }),
    ).push(
        AgentResponse::Event(
            AgentEvent::StateChanged {
                from: InternalAgentState::Processing,
                to: InternalAgentState::Paused,
            },
        ),
    )
    &&& post.claims_seq() == pre.claims_seq()
    &&& post.pending_claim_id() == pre.pending_claim_id()
    &&& post.spec_task() == pre.spec_task()
    &&& post.spec_notes() == pre.spec_notes()
    &&& post.spec_resolution() == pre.spec_resolution()
}

/// The pending claim was answered: resolved exactly once, the verdict
/// recorded for the driver, and the core resumed.
pub open spec fn resolved_post(
    pre: &AgentCore,
    post: &AgentCore,
    id: u64,
    decision: ClaimDecision,
) -> bool {
    let approved = decision is Approved;
    &&& pre.pending_claim_id() == Some(id)
    &&& post.spec_state() is Running
    &&& post.states_history() == pre.states_history().push(InternalAgentState::Running)
    &&& post.claims_seq() == pre.claims_seq().update(
        id - 1,
        Claim {
            status: if approved {
                crate::claims::ClaimStatus::Approved
            } else {
                crate::claims::ClaimStatus::Denied
            },
            ..pre.claims_seq()[id - 1]
        },
    )
    &&& post.pending_claim_id() is None
    &&& post.spec_waiting() is None
    &&& post.spec_resolution() == Some((id, approved))
    &&& post.stream() == pre.stream().push(
        AgentResponse::Event(AgentEvent::PermissionResolved { claim_id: id, approved }),
    ).push(
        AgentResponse::Event(
            AgentEvent::StateChanged {
                from: InternalAgentState::Paused,
                to: InternalAgentState::Running,
            },
        ),
    )
    &&& post.spec_task() == pre.spec_task()
    &&& post.spec_notes() == pre.spec_notes()
    &&& post.spec_next_user_id() == pre.spec_next_user_id()
}

/// The pending claim timed out: marked expired, treated as a denial, and the
/// core resumed — the task does not hang.
pub open spec fn expired_post(pre: &AgentCore, post: &AgentCore, id: u64) -> bool {
    &&& pre.pending_claim_id() == Some(id)
    &&& post.spec_state() is Running
    &&& post.states_history() == pre.states_history().push(InternalAgentState::Running)
    &&& post.claims_seq() == pre.claims_seq().update(
        id - 1,
        Claim { status: crate::claims::ClaimStatus::Expired, ..pre.claims_seq()[id - 1] },
    )
    &&& post.pending_claim_id() is None
    &&& post.spec_waiting() is None
    &&& post.spec_resolution() == Some((id, false))
    &&& post.stream() == pre.stream().push(
        AgentResponse::Event(AgentEvent::PermissionExpired { claim_id: id }),
    ).push(
        AgentResponse::Event(
            AgentEvent::StateChanged {
                from: InternalAgentState::Paused,
                to: InternalAgentState::Running,
            },
        ),
    )
    &&& post.spec_task() == pre.spec_task()
    &&& post.spec_notes() == pre.spec_notes()
    &&& post.spec_next_user_id() == pre.spec_next_user_id()
}

/// The pending user input arrived: it joins the notes and the core resumes.
pub open spec fn user_answered_post(
    pre: &AgentCore,
    post: &AgentCore,
    id: u64,
    content: String,
) -> bool {
    &&& pre.spec_waiting() == Some(WaitKind::User { id })
    &&& post.spec_state() is Running
    &&& post.states_history() == pre.states_history().push(InternalAgentState::Running)
    &&& post.spec_waiting() is None
    &&& post.spec_notes() == pre.spec_notes().push(content)
    &&& post.stream() == pre.stream().push(
        AgentResponse::Event(AgentEvent::UserInputReceived { request_id: id }),
    ).push(
        AgentResponse::Event(
            AgentEvent::StateChanged {
                from: InternalAgentState::Paused,
                to: InternalAgentState::Running,
            },
        ),
    )
    &&& post.claims_seq() == pre.claims_seq()
    &&& post.pending_claim_id() == pre.pending_claim_id()
    &&& post.spec_task() == pre.spec_task()
    &&& post.spec_resolution() == pre.spec_resolution()
    &&& post.spec_next_user_id() == pre.spec_next_user_id()
}

/// What applying `ev` in the `Starting` state does.
pub open spec fn starting_step(
    pre: &AgentCore,
    post: &AgentCore,
    ev: InternalAgentEvent,
    r: Result<(), AgentError>,
) -> bool {
    match ev {
        InternalAgentEvent::UserRequest(ur) => r is Ok && started_post(pre, post, ur.prompt),
        InternalAgentEvent::CancelTask => r is Ok && cancelled_post(pre, post),
        _ => r is Ok && post == pre,
    }
}

/// What applying `ev` in the `Running` state does.  A cancel with nothing to
/// cancel is silently absorbed; so is any other event the main loop should
/// have handled.
pub open spec fn running_step(
    pre: &AgentCore,
    post: &AgentCore,
    ev: InternalAgentEvent,
    r: Result<(), AgentError>,
) -> bool {
    match ev {
        InternalAgentEvent::ThinkingStart => r is Ok && step_started_post(pre, post),
        _ => r is Ok && post == pre,
    }
}

/// What applying `ev` in the `Processing` state does.
pub open spec fn processing_step(
    pre: &AgentCore,
    post: &AgentCore,
    ev: InternalAgentEvent,
    r: Result<(), AgentError>,
) -> bool {
    match ev {
        InternalAgentEvent::StepCompleted(outcome) => r is Ok && (match outcome {
            StepOutcome::Continue { note } => continue_post(pre, post, note),
            StepOutcome::Finished { result } => completed_post(pre, post, result),
            StepOutcome::Failed { error } => failed_post(pre, post, error),
        }),
        InternalAgentEvent::PermissionRequest(pr) => r is Ok && claim_opened_post(
            pre,
            post,
            pr.capability,
            pr.description,
        ),
        InternalAgentEvent::UserRequest(ur) => r is Ok && user_wait_post(pre, post, ur.prompt),
        InternalAgentEvent::CancelTask => r is Ok && cancelled_post(pre, post),
        _ => r is Ok && post == pre,
    }
}

/// What applying `ev` in the `Paused` state does.  Only a response matching
/// the pending correlation id is applied; a mismatched or stray response is
/// rejected with a descriptive error and changes nothing.
pub open spec fn paused_step(
    pre: &AgentCore,
    post: &AgentCore,
    ev: InternalAgentEvent,
    r: Result<(), AgentError>,
) -> bool {
    match ev {
        InternalAgentEvent::PermissionResponse(pr) => {
            match pre.spec_waiting() {
                Some(WaitKind::Claim { id }) => if pr.id == id {
                    r is Ok && resolved_post(pre, post, id, pr.decision)
                } else {
                    r == Err::<(), AgentError>(
                        AgentError::StaleCorrelation { expected: Some(id), got: pr.id },
                    ) && post == pre
                },
                _ => r == Err::<(), AgentError>(
                    AgentError::StaleCorrelation { expected: None, got: pr.id },
                ) && post == pre,
            }
        },
        InternalAgentEvent::UserResponse(ur) => {
            match pre.spec_waiting() {
                Some(WaitKind::User { id }) => if ur.id == id {
                    r is Ok && user_answered_post(pre, post, id, ur.content)
                } else {
                    r == Err::<(), AgentError>(
                        AgentError::StaleCorrelation { expected: Some(id), got: ur.id },
                    ) && post == pre
                },
                _ => r == Err::<(), AgentError>(
                    AgentError::StaleCorrelation { expected: None, got: ur.id },
                ) && post == pre,
            }
        },
        InternalAgentEvent::PermissionTimeout => {
            match pre.spec_waiting() {
                Some(WaitKind::Claim { id }) => r is Ok && expired_post(pre, post, id),
                _ => r is Ok && post == pre,
            }
        },
        InternalAgentEvent::CancelTask => r is Ok && cancelled_post(pre, post),
        _ => r is Ok && post == pre,
    }
}

/// The full transition relation of `handle_event`: what one event does in
/// each state.  In a terminal state every event is absorbed with no change —
/// terminal is absorbing.
pub open spec fn event_step(
    pre: &AgentCore,
    post: &AgentCore,
    ev: InternalAgentEvent,
    r: Result<(), AgentError>,
) -> bool {
    match pre.spec_state() {
        InternalAgentState::Starting => starting_step(pre, post, ev, r),
        InternalAgentState::Running => running_step(pre, post, ev, r),
        InternalAgentState::Processing => processing_step(pre, post, ev, r),
        InternalAgentState::Paused => paused_step(pre, post, ev, r),
        InternalAgentState::Terminal { .. } => r is Ok && post == pre,
    }
}

impl AgentCore {
    /// Abort the run: discard the pending claim (if any) and move to
    /// `Terminal { Cancelled }` with the single `Done`.
    fn cancel_now(&mut self)
        requires
            old(self).wf(),
            !old(self).spec_state().is_terminal(),
        ensures
            final(self).wf(),
            cancelled_post(old(self), final(self)),
            final(self).spec_resolution() == old(self).spec_resolution(),
    {
        self.waiting = None;
        let _ = self.claims.expire_pending();
        self.finish(TerminalReason::Cancelled, None, None);
    }

    /// The `Starting` state's handler: accepts the initial task setup event
    /// and moves to `Running`; a cancel ends the run; anything else is
    /// absorbed.  Routed here in any other state, it reports `InvalidState`.
    pub fn state_starting_handle_event(&mut self, event: InternalAgentEvent) -> (r: Result<
        (),
        AgentError,
    >)
        requires
            old(self).wf(),
        ensures
            final(self).wf(),
            if old(self).spec_state() is Starting {
                starting_step(old(self), final(self), event, r)
            } else {
                r == Err::<(), AgentError>(
                    AgentError::InvalidState {
                        current: old(self).spec_state().spec_to_public(),
                    },
                ) && *final(self) == *old(self)
            },
    {
        if !matches!(self.state, InternalAgentState::Starting) {
            return Err(AgentError::InvalidState { current: self.state.to_public() });
        }
        match event {
            InternalAgentEvent::UserRequest(ur) => {
                self.task = Some(ur.prompt.clone());
                self.emit_info(AgentEvent::TaskStarted { prompt: ur.prompt });
                self.transition(InternalAgentState::Running);
                Ok(())
            },
            InternalAgentEvent::CancelTask => {
                self.cancel_now();
                Ok(())
            },
            _ => Ok(()),
        }
    }

    /// The `Running` state's handler: `ThinkingStart` spawns the next step;
    /// a cancel with nothing to cancel is silently absorbed; any other event
    /// is unexpected and absorbed without failing the task.
    pub fn state_running_handle_event(&mut self, event: InternalAgentEvent) -> (r: Result<
        (),
        AgentError,
    >)
        requires
            old(self).wf(),
        ensures
            final(self).wf(),
            if old(self).spec_state() is Running {
                running_step(old(self), final(self), event, r)
            } else {
                r == Err::<(), AgentError>(
                    AgentError::InvalidState {
                        current: old(self).spec_state().spec_to_public(),
                    },
                ) && *final(self) == *old(self)
            },
    {
        if !matches!(self.state, InternalAgentState::Running) {
            return Err(AgentError::InvalidState { current: self.state.to_public() });
        }
        match event {
            InternalAgentEvent::ThinkingStart => {
                self.emit_info(AgentEvent::StepStarted);
                self.transition(InternalAgentState::Processing);
                Ok(())
            },
            _ => Ok(()),
        }
    }

    /// The `Processing` state's handler: completion events return control to
    /// `Running`, pause the core on a claim or a user request, or end the
    /// run; a cancel aborts the in-flight step's run.
    pub fn state_processing_handle_event(&mut self, event: InternalAgentEvent) -> (r: Result<
        (),
        AgentError,
    >)
        requires
            old(self).wf(),
            old(self).can_issue_claim(),
            old(self).spec_next_user_id() < u64::MAX,
        ensures
            final(self).wf(),
            if old(self).spec_state() is Processing {
                processing_step(old(self), final(self), event, r)
            } else {
                r == Err::<(), AgentError>(
                    AgentError::InvalidState {
                        current: old(self).spec_state().spec_to_public(),
                    },
                ) && *final(self) == *old(self)
            },
    {
        if !matches!(self.state, InternalAgentState::Processing) {
            return Err(AgentError::InvalidState { current: self.state.to_public() });
        }
        match event {
            InternalAgentEvent::StepCompleted(outcome) => {
                match outcome {
                    StepOutcome::Continue { note } => {
                        match note {
                            Some(n) => self.notes.push(n),
                            None => {},
                        }
                        self.transition(InternalAgentState::Running);
                    },
                    StepOutcome::Finished { result } => {
                        self.finish(TerminalReason::Completed, Some(result), None);
                    },
                    StepOutcome::Failed { error } => {
                        self.finish(TerminalReason::Failed, None, Some(error));
                    },
                }
                Ok(())
            },
            InternalAgentEvent::PermissionRequest(pr) => {
                let description = pr.description.clone();
                let id = match self.claims.request(pr.capability, pr.description) {
                    Ok(id) => id,
                    Err(_) => {
                        proof {
                            assert(false);
                        }
                        return Ok(());
                    },
                };
                self.waiting = Some(WaitKind::Claim { id });
                self.emit_info(
                    AgentEvent::PermissionRequested {
                        claim_id: id,
                        capability: pr.capability,
                        description,
                    },
                );
                self.transition(InternalAgentState::Paused);
                Ok(())
            },
            InternalAgentEvent::UserRequest(ur) => {
                let id = self.next_user_id;
                self.next_user_id = id + 1;
                self.waiting = Some(WaitKind::User { id });
                self.emit_info(AgentEvent::UserInputRequested { request_id: id, prompt: ur.prompt });
                self.transition(InternalAgentState::Paused);
                Ok(())
            },
            InternalAgentEvent::CancelTask => {
                self.cancel_now();
                Ok(())
            },
            _ => Ok(()),
        }
    }

    /// The `Paused` state's handler: accepts only the response matching the
    /// pending claim or user-request id; a mismatched or stray response is
    /// rejected with a descriptive error, not silently applied.  A cancel
    /// while paused discards the pending claim and ends the run.
    pub fn state_paused_handle_event(&mut self, event: InternalAgentEvent) -> (r: Result<
        (),
        AgentError,
    >)
        requires
            old(self).wf(),
        ensures
            final(self).wf(),
            if old(self).spec_state() is Paused {
                paused_step(old(self), final(self), event, r)
            } else {
                r == Err::<(), AgentError>(
                    AgentError::InvalidState {
                        current: old(self).spec_state().spec_to_public(),
                    },
                ) && *final(self) == *old(self)
            },
    {
        if !matches!(self.state, InternalAgentState::Paused) {
            return Err(AgentError::InvalidState { current: self.state.to_public() });
        }
        match event {
            InternalAgentEvent::PermissionResponse(pr) => {
                match self.waiting {
                    Some(WaitKind::Claim { id }) => {
                        if pr.id != id {
                            return Err(
                                AgentError::StaleCorrelation { expected: Some(id), got: pr.id },
                            );
                        }
                        let approved = matches!(pr.decision, ClaimDecision::Approved);
                        let resolved = self.claims.resolve(id, pr.decision);
                        proof {
                            assert(resolved is Ok);
                        }
                        self.waiting = None;
                        self.last_resolution = Some((id, approved));
                        self.emit_info(AgentEvent::PermissionResolved { claim_id: id, approved });
                        self.transition(InternalAgentState::Running);
                        Ok(())
                    },
                    _ => Err(AgentError::StaleCorrelation { expected: None, got: pr.id }),
                }
            },
            InternalAgentEvent::UserResponse(ur) => {
                match self.waiting {
                    Some(WaitKind::User { id }) => {
                        if ur.id != id {
                            return Err(
                                AgentError::StaleCorrelation { expected: Some(id), got: ur.id },
                            );
                        }
                        self.waiting = None;
                        self.notes.push(ur.content);
                        self.emit_info(AgentEvent::UserInputReceived { request_id: id });
                        self.transition(InternalAgentState::Running);
                        Ok(())
                    },
                    _ => Err(AgentError::StaleCorrelation { expected: None, got: ur.id }),
                }
            },
            InternalAgentEvent::PermissionTimeout => {
                match self.waiting {
                    Some(WaitKind::Claim { id }) => {
                        let expired = self.claims.expire_pending();
                        proof {
                            assert(expired == Some(id));
                        }
                        self.waiting = None;
                        self.last_resolution = Some((id, false));
                        self.emit_info(AgentEvent::PermissionExpired { claim_id: id });
                        self.transition(InternalAgentState::Running);
                        Ok(())
                    },
                    _ => Ok(()),
                }
            },
            InternalAgentEvent::CancelTask => {
                self.cancel_now();
                Ok(())
            },
            _ => Ok(()),
        }
    }

    /// The `Terminal` state's handler: absorbs every further event without
    /// any state change — the quiescent, final state of the task run.
    pub fn state_terminal_handle_event(&mut self, event: InternalAgentEvent) -> (r: Result<
        (),
        AgentError,
    >)
        requires
            old(self).wf(),
        ensures
            final(self).wf(),
            r is Ok,
            *final(self) == *old(self),
    {
        let _ = event;
        Ok(())
    }

    /// Apply one event: dispatch to the current state's handler.  Events are
    /// applied strictly one at a time, in arrival order; the ensures is the
    /// machine's complete transition relation.  Once the state is terminal,
    /// nothing changes any more: no transition, no stream entry, no second
    /// `Done` — a late step-completion event is observably discarded.
    pub fn handle_event(&mut self, event: InternalAgentEvent) -> (r: Result<(), AgentError>)
        requires
            old(self).wf(),
            old(self).can_issue_claim(),
            old(self).spec_next_user_id() < u64::MAX,
        ensures
            final(self).wf(),
            event_step(old(self), final(self), event, r),
            old(self).spec_state().is_terminal() ==> *final(self) == *old(self) && r is Ok,
    {
        match self.state {
            InternalAgentState::Starting => self.state_starting_handle_event(event),
            InternalAgentState::Running => self.state_running_handle_event(event),
            InternalAgentState::Processing => self.state_processing_handle_event(event),
            InternalAgentState::Paused => self.state_paused_handle_event(event),
            InternalAgentState::Terminal { .. } => self.state_terminal_handle_event(event),
        }
    }

    /// Stream a response fragment produced mid-step and add it to the
    /// conversation notes.  Valid only while a step is in flight.
    pub fn respond(&mut self, content: String) -> (r: Result<(), AgentError>)
        requires
            old(self).wf(),
        ensures
            final(self).wf(),
            if old(self).spec_state() is Processing {
                &&& r is Ok
                &&& final(self).stream() == old(self).stream().push(
                    AgentResponse::Event(AgentEvent::ResponseChunk { content }),
                )
                &&& final(self).spec_notes() == old(self).spec_notes().push(content)
                &&& final(self).spec_state() == old(self).spec_state()
                &&& final(self).states_history() == old(self).states_history()
                &&& final(self).claims_seq() == old(self).claims_seq()
                &&& final(self).pending_claim_id() == old(self).pending_claim_id()
                &&& final(self).spec_waiting() == old(self).spec_waiting()
                &&& final(self).spec_task() == old(self).spec_task()
                &&& final(self).spec_resolution() == old(self).spec_resolution()
                &&& final(self).spec_next_user_id() == old(self).spec_next_user_id()
            } else {
                r == Err::<(), AgentError>(
                    AgentError::InvalidState {
                        current: old(self).spec_state().spec_to_public(),
                    },
                ) && *final(self) == *old(self)
            },
    {
        if !matches!(self.state, InternalAgentState::Processing) {
            return Err(AgentError::InvalidState { current: self.state.to_public() });
        }
        self.notes.push(content.clone());
        self.emit_info(AgentEvent::ResponseChunk { content });
        Ok(())
    }

    /// The protocol boundary a host speaks to.  Validation is synchronous: an
    /// `Ok` return is the acceptance acknowledgment, a rejected request
    /// returns its error and changes nothing; results and events stream back
    /// on the response stream.  A stale or mismatched permission answer is
    /// rejected here, before it ever reaches the `Paused` handler — the
    /// handler checks the id once more, giving two layers of correlation
    /// defense.
    pub fn handle_request(&mut self, request: AgentRequest) -> (r: Result<(), AgentError>)
        requires
            old(self).wf(),
        ensures
            final(self).wf(),
            request_step(old(self), final(self), request, r),
    {
        match request {
            AgentRequest::StartTask { prompt } => {
                self.state_starting_handle_event(
                    InternalAgentEvent::UserRequest(crate::events::UserRequest { prompt }),
                )
            },
            AgentRequest::Cancel | AgentRequest::Shutdown => {
                if matches!(self.state, InternalAgentState::Terminal { .. }) {
                    Ok(())
                } else {
                    self.cancel_now();
                    Ok(())
                }
            },
            AgentRequest::AnswerPermission { id, decision } => {
                match self.waiting {
                    Some(WaitKind::Claim { id: pending_id }) => {
                        if id != pending_id {
                            return Err(
                                AgentError::StaleCorrelation { expected: Some(pending_id), got: id },
                            );
                        }
                        self.state_paused_handle_event(
                            InternalAgentEvent::PermissionResponse(
                                crate::events::PermissionResponse { id, decision },
                            ),
                        )
                    },
                    _ => Err(AgentError::StaleCorrelation { expected: None, got: id }),
                }
            },
        }
    }
}

/// The protocol layer's transition relation: what one host request does.
pub open spec fn request_step(
    pre: &AgentCore,
    post: &AgentCore,
    request: AgentRequest,
    r: Result<(), AgentError>,
) -> bool {
    match request {
        AgentRequest::StartTask { prompt } => if pre.spec_state() is Starting {
            r is Ok && started_post(pre, post, prompt)
        } else {
            r == Err::<(), AgentError>(
                AgentError::InvalidState { current: pre.spec_state().spec_to_public() },
            ) && post == pre
        },
        AgentRequest::Cancel | AgentRequest::Shutdown => r is Ok && (
        if pre.spec_state().is_terminal() {
            post == pre
        } else {
            cancelled_post(pre, post)
        }),
        AgentRequest::AnswerPermission { id, decision } => {
            match pre.spec_waiting() {
                Some(WaitKind::Claim { id: pending_id }) => if id == pending_id {
                    r is Ok && resolved_post(pre, post, id, decision)
                } else {
                    r == Err::<(), AgentError>(
                        AgentError::StaleCorrelation { expected: Some(pending_id), got: id },
                    ) && post == pre
                },
                _ => r == Err::<(), AgentError>(
                    AgentError::StaleCorrelation { expected: None, got: id },
                ) && post == pre,
            }
        },
    }
}

/// Terminal is absorbing: once a run has ended, no event re-enters any
/// state, changes the stream, or produces a second `Done`.
pub proof fn lemma_terminal_absorbing(
    pre: AgentCore,
    post: AgentCore,
    ev: InternalAgentEvent,
    r: Result<(), AgentError>,
)
    requires
        pre.spec_state().is_terminal(),
        event_step(&pre, &post, ev, r),
    ensures
        post == pre,
        r is Ok,
{
}

/// While the core waits on a claim or on user input, a permission response
/// whose id differs from the pending claim's id is always rejected with a
/// descriptive error and changes nothing.
pub proof fn lemma_mismatched_response_rejected(
    pre: AgentCore,
    post: AgentCore,
    pr: crate::events::PermissionResponse,
    r: Result<(), AgentError>,
)
    requires
        pre.wf(),
        pre.spec_state() is Paused,
        event_step(&pre, &post, InternalAgentEvent::PermissionResponse(pr), r),
        pre.pending_claim_id() != Some(pr.id),
    ensures
        r is Err,
        post == pre,
{
    match pre.spec_waiting() {
        Some(WaitKind::Claim { id }) => {
            assert(pre.pending_claim_id() == Some(id));
        },
        _ => {},
    }
}

/// At the protocol boundary the same holds in every state: a permission
/// answer that does not name the currently pending claim is rejected before
/// it ever reaches the `Paused` handler.
pub proof fn lemma_stale_answer_rejected_at_protocol(
    pre: AgentCore,
    post: AgentCore,
    id: u64,
    decision: ClaimDecision,
    r: Result<(), AgentError>,
)
    requires
        pre.wf(),
        request_step(&pre, &post, AgentRequest::AnswerPermission { id, decision }, r),
        pre.pending_claim_id() != Some(id),
    ensures
        r is Err,
        post == pre,
{
    match pre.spec_waiting() {
        Some(WaitKind::Claim { id: cid }) => {
            assert(pre.pending_claim_id() == Some(cid));
        },
        _ => {},
    }
}

/// A permission response matching the pending claim id is applied exactly
/// once: it resolves the claim, and a second copy of the same response finds
/// the core no longer paused and is absorbed without any further change.
pub proof fn lemma_matching_response_applied_once(
    pre: AgentCore,
    mid: AgentCore,
    post: AgentCore,
    pr: crate::events::PermissionResponse,
    r1: Result<(), AgentError>,
    r2: Result<(), AgentError>,
)
    requires
        pre.wf(),
        pre.spec_waiting() == Some(WaitKind::Claim { id: pr.id }),
        pre.spec_state() is Paused,
        event_step(&pre, &mid, InternalAgentEvent::PermissionResponse(pr), r1),
        event_step(&mid, &post, InternalAgentEvent::PermissionResponse(pr), r2),
    ensures
        r1 is Ok,
        resolved_post(&pre, &mid, pr.id, pr.decision),
        post == mid,
{
}

/// A cancel request in any non-terminal state yields `Terminal{Cancelled}`,
/// and a step-completion event arriving after that point is observably
/// discarded: no state change, no stream entry, no duplicate `Done`.
pub proof fn lemma_cancel_effective_and_late_completion_discarded(
    pre: AgentCore,
    mid: AgentCore,
    post: AgentCore,
    outcome: StepOutcome,
    r1: Result<(), AgentError>,
    r2: Result<(), AgentError>,
)
    requires
        pre.wf(),
        !pre.spec_state().is_terminal(),
        request_step(&pre, &mid, AgentRequest::Cancel, r1),
        event_step(&mid, &post, InternalAgentEvent::StepCompleted(outcome), r2),
    ensures
        mid.spec_state() == (InternalAgentState::Terminal { reason: TerminalReason::Cancelled }),
        post == mid,
        r2 is Ok,
        done_count(post.stream()) == done_count(pre.stream()) + 1,
{
    let changed = AgentResponse::Event(
        AgentEvent::StateChanged {
            from: pre.spec_state(),
            to: InternalAgentState::Terminal { reason: TerminalReason::Cancelled },
        },
    );
    let done = AgentResponse::Done(
        TaskAgentResponse { reason: TerminalReason::Cancelled, content: None },
    );
    lemma_stream_push(pre.stream(), changed);
    lemma_stream_push(pre.stream().push(changed), done);
}

/// Transitions only move forward: once a run has left `Starting`, no event
/// brings it back, so each run passes `Starting` exactly once.
pub proof fn lemma_starting_never_reentered(
    pre: AgentCore,
    post: AgentCore,
    ev: InternalAgentEvent,
    r: Result<(), AgentError>,
)
    requires
        pre.wf(),
        event_step(&pre, &post, ev, r),
        !(pre.spec_state() is Starting),
    ensures
        !(post.spec_state() is Starting),
{
}

/// The observable stream cannot reorder, duplicate or invent transitions:
/// its `StateChanged` entries are exactly the transitions the run made, in
/// the order they occurred.
pub proof fn lemma_stream_matches_transitions(core: AgentCore)
    requires
        core.wf(),
    ensures
        state_changes(core.stream()) == transition_pairs(core.states_history()),
{
}

/// Why `run_until_blocked` handed control back to the host.
#[derive(Clone, Copy, Debug, PartialEq, Eq, Structural)]
pub enum RunStatus {
    /// The run reached its terminal state; the stream holds the single
    /// `Done`.
    Finished { reason: TerminalReason },
    /// The run is paused on the claim with this id; answer or cancel it.
    AwaitingPermission { claim_id: u64 },
    /// The run is paused on the user-input request with this id.
    AwaitingUser { request_id: u64 },
}

/// One agent: the core, the brain that decides, the runner that executes
/// tools, and the declared tool set.  The driver loop lives here; the core's
/// state is mutated only through its own handlers.
pub struct Agent<B: Brain, R: ToolRunner> {
    core: AgentCore,
    brain: B,
    runner: R,
    tools: Vec<ToolSpec>,
    config: AgentConfig,
    logging: LoggingConfig,
    pending_call: Option<ToolCall>,
}

impl<B: Brain, R: ToolRunner> Agent<B, R> {
    /// The state machine inside this agent.
    pub closed spec fn spec_core(&self) -> AgentCore {
        self.core
    }

    /// The declared tool set.
    pub closed spec fn spec_tools(&self) -> Seq<ToolSpec> {
        self.tools@
    }

    /// The tool call waiting on the pending claim's verdict, if any.
    pub closed spec fn spec_pending_call(&self) -> Option<ToolCall> {
        self.pending_call
    }

    /// The agent is well-formed exactly when its core is.
    pub open spec fn wf(&self) -> bool {
        self.spec_core().wf()
    }

    pub(crate) fn assemble(
        brain: B,
        runner: R,
        tools: Vec<ToolSpec>,
        config: AgentConfig,
        logging: LoggingConfig,
    ) -> (r: Agent<B, R>)
        ensures
            r.wf(),
            r.spec_core().spec_state() == InternalAgentState::Starting,
            r.spec_core().stream() == Seq::<AgentResponse>::empty(),
            r.spec_core().claims_seq() == Seq::<Claim>::empty(),
            r.spec_core().spec_next_user_id() == 1,
            r.spec_tools() == tools@,
            r.spec_config() == config,
            r.spec_pending_call() is None,
    {
        Agent { core: AgentCore::new(), brain, runner, tools, config, logging, pending_call: None }
    }

    /// The agent's configuration.
    pub closed spec fn spec_config(&self) -> AgentConfig {
        self.config
    }

    /// The configured permission-wait timeout, if one was set.
    pub fn permission_timeout_ms(&self) -> (r: Option<u64>)
        ensures
            r == self.spec_config().permission_timeout_ms,
    {
        self.config.permission_timeout_ms
    }

    /// Read access to the core (state, stream, claims).
    pub fn agent_core(&self) -> (r: &AgentCore)
        ensures
            *r == self.spec_core(),
    {
        &self.core
    }

    /// Read access to the tool runner.
    pub fn runner(&self) -> (r: &R) {
        &self.runner
    }

    /// Begin the task run.  Valid only while starting.
    pub fn start(&mut self, prompt: String) -> (r: Result<(), AgentError>)
        requires
            old(self).wf(),
        ensures
            final(self).wf(),
            request_step(
                &old(self).spec_core(),
                &final(self).spec_core(),
                AgentRequest::StartTask { prompt },
                r,
            ),
            final(self).spec_tools() == old(self).spec_tools(),
            final(self).spec_pending_call() == old(self).spec_pending_call(),
    {
        self.core.handle_request(AgentRequest::StartTask { prompt })
    }

    /// Abort the run.  Effective in every non-terminal state, even while a
    /// step is mid-flight; once terminal it is absorbed.
    pub fn cancel(&mut self) -> (r: Result<(), AgentError>)
        requires
            old(self).wf(),
        ensures
            final(self).wf(),
            request_step(&old(self).spec_core(), &final(self).spec_core(), AgentRequest::Cancel, r),
            !old(self).spec_core().spec_state().is_terminal()
                ==> final(self).spec_core().spec_state() == (InternalAgentState::Terminal {
                reason: TerminalReason::Cancelled,
            }),
    {
        self.core.handle_request(AgentRequest::Cancel)
    }

    /// Stop the agent for good; a cancel that is also absorbed once terminal.
    pub fn shutdown(&mut self) -> (r: Result<(), AgentError>)
        requires
            old(self).wf(),
        ensures
            final(self).wf(),
            request_step(
                &old(self).spec_core(),
                &final(self).spec_core(),
                AgentRequest::Shutdown,
                r,
            ),
    {
        self.core.handle_request(AgentRequest::Shutdown)
    }

    /// Answer the pending claim.  A stale or mismatched id is rejected at
    /// this protocol boundary and changes nothing.
    pub fn answer_permission(&mut self, id: u64, decision: ClaimDecision) -> (r: Result<
        (),
        AgentError,
    >)
        requires
            old(self).wf(),
        ensures
            final(self).wf(),
            request_step(
                &old(self).spec_core(),
                &final(self).spec_core(),
                AgentRequest::AnswerPermission { id, decision },
                r,
            ),
            final(self).spec_pending_call() == old(self).spec_pending_call(),
    {
        self.core.handle_request(AgentRequest::AnswerPermission { id, decision })
    }

    /// Report that the configured permission wait elapsed: the pending claim
    /// expires and is treated as a denial, so the run does not hang.
    pub fn permission_timed_out(&mut self) -> (r: Result<(), AgentError>)
        requires
            old(self).wf(),
            old(self).spec_core().can_issue_claim(),
            old(self).spec_core().spec_next_user_id() < u64::MAX,
        ensures
            final(self).wf(),
            event_step(
                &old(self).spec_core(),
                &final(self).spec_core(),
                InternalAgentEvent::PermissionTimeout,
                r,
            ),
            final(self).spec_pending_call() == old(self).spec_pending_call(),
    {
        self.core.handle_event(InternalAgentEvent::PermissionTimeout)
    }

    /// Answer the pending user-input request.
    pub fn answer_user(&mut self, id: u64, content: String) -> (r: Result<(), AgentError>)
        requires
            old(self).wf(),
            old(self).spec_core().can_issue_claim(),
            old(self).spec_core().spec_next_user_id() < u64::MAX,
        ensures
            final(self).wf(),
            event_step(
                &old(self).spec_core(),
                &final(self).spec_core(),
                InternalAgentEvent::UserResponse(crate::events::UserResponse { id, content }),
                r,
            ),
    {
        self.core.handle_event(
            InternalAgentEvent::UserResponse(crate::events::UserResponse { id, content }),
        )
    }

    /// Drive the loop until the run ends or must wait on the host: think,
    /// act, observe — spawning a step for each brain decision, executing
    /// ungated tools at once, and pausing on a claim before a gated one.  A
    /// denied or expired claim skips the tool call (the denial is already on
    /// the stream) and thinking continues.  The configured step budget bounds
    /// one run; exhausting it ends the task as failed with a timeout.
    pub fn run_until_blocked(&mut self) -> (r: Result<RunStatus, AgentError>)
        requires
            old(self).wf(),
            old(self).spec_core().claims_seq().len() + 2 < u64::MAX,
            old(self).spec_core().spec_next_user_id() < u64::MAX,
        ensures
            final(self).wf(),
            match r {
                Ok(status) => match status {
                    RunStatus::Finished { reason } => final(self).spec_core().spec_state()
                        == (InternalAgentState::Terminal { reason }),
                    RunStatus::AwaitingPermission { claim_id } => {
                        &&& final(self).spec_core().spec_state() is Paused
                        &&& final(self).spec_core().spec_waiting() == Some(
                            WaitKind::Claim { id: claim_id },
                        )
                        &&& final(self).spec_core().pending_claim_id() == Some(claim_id)
                    },
                    RunStatus::AwaitingUser { request_id } => {
                        &&& final(self).spec_core().spec_state() is Paused
                        &&& final(self).spec_core().spec_waiting() == Some(
                            WaitKind::User { id: request_id },
                        )
                    },
                },
                Err(e) => {
                    &&& old(self).spec_core().spec_state() is Starting
                    &&& e == (AgentError::InvalidState { current: PublicAgentState::Starting })
                    &&& *final(self) == *old(self)
                },
            },
    {
        let mut steps_left: u64 = self.config.max_steps;
        loop
            invariant
                self.wf(),
                self.core.spec_next_user_id() == old(self).spec_core().spec_next_user_id(),
                self.core.claims_seq().len() == old(self).spec_core().claims_seq().len() || (
                self.core.claims_seq().len() == old(self).spec_core().claims_seq().len() + 1
                    && self.core.spec_state() is Paused),
                old(self).spec_core().claims_seq().len() + 2 < u64::MAX,
                old(self).spec_core().spec_next_user_id() < u64::MAX,
                self.core.spec_state() is Starting ==> *self == *old(self),
            decreases steps_left,
        {
            match self.core.state() {
                InternalAgentState::Starting => {
                    return Err(AgentError::InvalidState { current: PublicAgentState::Starting });
                },
                InternalAgentState::Terminal { reason } => {
                    return Ok(RunStatus::Finished { reason });
                },
                InternalAgentState::Paused => {
                    match self.core.waiting_on() {
                        Some(WaitKind::Claim { id }) => {
                            return Ok(RunStatus::AwaitingPermission { claim_id: id });
                        },
                        Some(WaitKind::User { id }) => {
                            return Ok(RunStatus::AwaitingUser { request_id: id });
                        },
                        None => {
                            proof {
                                assert(false);
                            }
                            return Err(
                                AgentError::InvalidState { current: PublicAgentState::Starting },
                            );
                        },
                    }
                },
                InternalAgentState::Running => {
                    if steps_left == 0 {
                        return Ok(self.fail_timed_out());
                    }
                    steps_left = steps_left - 1;
                    match self.core.take_resolution() {
                        Some((_id, approved)) => {
                            match self.pending_call.take() {
                                Some(call) => {
                                    if approved {
                                        let _ = self.core.handle_event(
                                            InternalAgentEvent::ThinkingStart,
                                        );
                                        let outcome = self.execute_tool(&call);
                                        let _ = self.core.handle_event(
                                            InternalAgentEvent::StepCompleted(outcome),
                                        );
                                    }
                                    // A denial or expiry skips the call; the
                                    // verdict is already on the stream, and
                                    // the next iteration thinks again.
                                },
                                None => {},
                            }
                        },
                        None => {
                            let _ = self.core.handle_event(InternalAgentEvent::ThinkingStart);
                            self.decide_and_act();
                        },
                    }
                },
                InternalAgentState::Processing => {
                    if steps_left == 0 {
                        return Ok(self.fail_timed_out());
                    }
                    steps_left = steps_left - 1;
                    self.decide_and_act();
                },
            }
        }
    }

    /// End the run as failed with a timeout once the step budget is spent.
    fn fail_timed_out(&mut self) -> (r: RunStatus)
        requires
            old(self).wf(),
            old(self).spec_core().spec_state() is Running || old(self).spec_core().spec_state()
                is Processing,
            old(self).spec_core().can_issue_claim(),
            old(self).spec_core().spec_next_user_id() < u64::MAX,
        ensures
            final(self).wf(),
            r == (RunStatus::Finished { reason: TerminalReason::Failed }),
            final(self).spec_core().spec_state() == (InternalAgentState::Terminal {
                reason: TerminalReason::Failed,
            }),
    {
        if matches!(self.core.state(), InternalAgentState::Running) {
            let _ = self.core.handle_event(InternalAgentEvent::ThinkingStart);
        }
        let _ = self.core.handle_event(
            InternalAgentEvent::StepCompleted(
                StepOutcome::Failed { error: AgentExecutionError::Timeout },
            ),
        );
        RunStatus::Finished { reason: TerminalReason::Failed }
    }

    /// One brain decision and its consequence: finish, respond and continue,
    /// run an ungated tool, or raise a claim for a gated one and pause.
    fn decide_and_act(&mut self)
        requires
            old(self).wf(),
            old(self).spec_core().spec_state() is Processing,
            old(self).spec_core().claims_seq().len() + 2 < u64::MAX,
            old(self).spec_core().spec_next_user_id() < u64::MAX,
        ensures
            final(self).wf(),
            final(self).spec_core().spec_next_user_id() == old(
                self,
            ).spec_core().spec_next_user_id(),
            final(self).spec_core().claims_seq().len() == old(self).spec_core().claims_seq().len()
                || (final(self).spec_core().claims_seq().len() == old(
                self,
            ).spec_core().claims_seq().len() + 1 && final(self).spec_core().spec_state()
                is Paused),
            !(final(self).spec_core().spec_state() is Starting),
            !(final(self).spec_core().spec_state() is Processing),
    {
        let context = ThinkerContext {
            task: self.core.task().clone(),
            notes: self.core.notes().clone(),
            tools: self.tools.clone(),
            state: self.core.public_state(),
        };
        let decision = self.brain.decide(&context);
        match decision {
            ThinkerDecision::Finish { result } => {
                let _ = self.core.handle_event(
                    InternalAgentEvent::StepCompleted(StepOutcome::Finished { result }),
                );
            },
            ThinkerDecision::Respond { content } => {
                let _ = self.core.respond(content);
                let _ = self.core.handle_event(
                    InternalAgentEvent::StepCompleted(StepOutcome::Continue { note: None }),
                );
            },
            ThinkerDecision::CallTool(call) => {
                let gated: Option<Capability> = match crate::tools::find_tool(
                    &self.tools,
                    &call.name,
                ) {
                    Some(t) => if t.capability.requires_claim() {
                        Some(t.capability)
                    } else {
                        None
                    },
                    None => None,
                };
                match gated {
                    Some(capability) => {
                        let description = call.name.clone();
                        self.pending_call = Some(call);
                        let _ = self.core.handle_event(
                            InternalAgentEvent::PermissionRequest(
                                crate::events::PermissionRequest { capability, description },
                            ),
                        );
                    },
                    None => {
                        let outcome = self.execute_tool(&call);
                        let _ = self.core.handle_event(
                            InternalAgentEvent::StepCompleted(outcome),
                        );
                    },
                }
            },
        }
    }

    /// Run one tool invocation and shape its report as a step outcome: a
    /// success becomes a note for the next think, a failure is fatal.
    fn execute_tool(&mut self, call: &ToolCall) -> (r: StepOutcome)
        requires
            old(self).wf(),
        ensures
            final(self).spec_core() == old(self).spec_core(),
            final(self).spec_pending_call() == old(self).spec_pending_call(),
            final(self).spec_tools() == old(self).spec_tools(),
            !(r matches StepOutcome::Finished { .. }),
    {
        match self.runner.run_tool(call) {
            ToolResult::Success { output } => StepOutcome::Continue { note: Some(output) },
            ToolResult::Failure { message } => StepOutcome::Failed {
                error: AgentExecutionError::ToolFailure { tool: call.name.clone(), message },
            },
        }
    }
}

} // verus!

