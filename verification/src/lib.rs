//! Verified core of an interactive coding/automation agent.
//!
//! The heart of the crate is the agent orchestration core: a state machine
//! that owns one agent's lifecycle, applies internal events one at a time,
//! gates capability-restricted tool calls behind an asynchronous permission
//! protocol (claims), and emits an ordered, append-only stream of external
//! responses.  Around it stand the supporting pieces: the session history
//! service logic (a bounded command history with the same correlation
//! discipline as the claim manager), provider configuration, terminal theme
//! rendering, and the hardware assistant tools.

mod textutil;

mod states;
mod errors;
mod events;
mod claims;
mod tools;
mod brain;
mod agent;
mod builder;
mod history;
mod session;
mod config;
pub mod hardware;
mod theme;

pub use states::{InternalAgentState, PublicAgentState, TerminalReason};
pub use agent::{
    cancelled_post, change_entry, claim_opened_post, completed_post, continue_post, done_count,
    event_step, expired_post, failed_post, lemma_cancel_effective_and_late_completion_discarded,
    lemma_matching_response_applied_once, lemma_mismatched_response_rejected,
    lemma_starting_never_reentered,
    lemma_stale_answer_rejected_at_protocol, lemma_stream_matches_transitions,
    lemma_terminal_absorbing, paused_step, processing_step, request_step, resolved_post,
    running_step, same_bookkeeping, started_post, starting_step, state_changes, step_started_post,
    transition_pairs, user_answered_post, user_wait_post, Agent, AgentCore, RunStatus, WaitKind,
};
pub use builder::{AgentBuilder, AgentConfig, LoggingConfig};
pub use tools::{find_tool, spec_find_tool, RecordingRunner, ToolCall, ToolResult, ToolRunner, ToolSpec};
pub use brain::{
    flow_of, spec_flow_of, Brain, ScriptedBrain, ThinkerContext, ThinkerDecision,
    ThinkerFlowControl,
};
pub use errors::{AgentError, AgentExecutionError, PermissionError};
pub use events::{
    AgentEvent, AgentRequest, AgentResponse, InternalAgentEvent, PermissionRequest,
    PermissionResponse, StepOutcome, TaskAgentResponse, UserRequest, UserResponse,
};
pub use claims::{Capability, Claim, ClaimDecision, ClaimManager, ClaimStatus};

pub use history::{CommandEntry, CommandHistory};
pub use session::{
    frame_decode, frame_encode, lemma_frame_round_trip, should_analyze_exit, spec_be32,
    spec_be32_value, stats_correct, HistoryStats,
    ResponseData, WakeRequest, WakeResponse, WakeSessionClient, WakeSessionServer,
};
pub use config::{
    env_pairs, spec_has_duplicate, spec_indices_of_type, ProviderConfig, ToolCallMethod,
    WakeConfig,
};
pub use textutil::{
    ascii_lower, ascii_upper, contains_string, spec_ascii_lower, spec_ascii_upper, spec_contains,
    spec_decimal, str_contains, str_eq, string_views, u64_to_string, usize_to_string,
};
pub use theme::{
    apply_gradient, generate_nice_color, hsl_to_rgb, logo, logo_cyan, random_palette,
    rgb_to_256_color, spec_color_256, spec_gradient, spec_hsl_to_rgb, spec_lines_of, wake_logo,
    WAKE_BLUE, WAKE_DEEP_BLUE, WAKE_GREEN, WAKE_LIGHT_BLUE, WAKE_SKY_BLUE, WAKE_WHITE,
    WAKE_WHITE_BLUE, WAKE_YELLOW,
};
