//! Construction-time wiring: assemble an agent from a brain, a tool runner,
//! the declared tool set, and the logging configuration.  Configuration is an
//! explicit value handed in here, never read from process state, so the core
//! stays side-effect-free.

use vstd::prelude::*;
use crate::agent::Agent;
use crate::brain::Brain;
use crate::claims::Capability;
use crate::tools::{ToolRunner, ToolSpec};

verus! {

/// How observers should log; carried as plain data, applied by collaborators.
#[derive(Clone, Debug, PartialEq)]
pub struct LoggingConfig {
    pub verbose: bool,
    pub log_file: Option<String>,
}

impl Default for LoggingConfig {
    /// Quiet, with no log file.
    fn default() -> (r: LoggingConfig)
        ensures
            !r.verbose,
            r.log_file is None,
    {
        LoggingConfig { verbose: false, log_file: None }
    }
}

/// How many steps (brain decisions or tool executions) one driver run may
/// spend before the task fails with a timeout.
pub const DEFAULT_MAX_STEPS: u64 = 4096;

/// The core's own options.
#[derive(Clone, Copy, Debug, PartialEq, Eq, Structural)]
pub struct AgentConfig {
    /// How long a permission wait may last before the claim expires and is
    /// treated as a denial; `None` waits forever.
    pub permission_timeout_ms: Option<u64>,
    /// The step budget of one driver run; exhausting it ends the task as
    /// failed with a timeout rather than looping forever.
    pub max_steps: u64,
}

impl Default for AgentConfig {
    /// No permission timeout, default step budget.
    fn default() -> (r: AgentConfig)
        ensures
            r.permission_timeout_ms is None,
            r.max_steps == DEFAULT_MAX_STEPS,
    {
        AgentConfig { permission_timeout_ms: None, max_steps: DEFAULT_MAX_STEPS }
    }
}

/// Assembles an `Agent`.  Purely construction-time wiring: collects the tool
/// set and options, then builds a fresh core around the given brain and
/// runner.
pub struct AgentBuilder {
    tools: Vec<ToolSpec>,
    config: AgentConfig,
    logging: LoggingConfig,
}

impl AgentBuilder {
    /// The tools declared so far.
    pub closed spec fn spec_tools(&self) -> Seq<ToolSpec> {
        self.tools@
    }

    /// The options collected so far.
    pub closed spec fn spec_config(&self) -> AgentConfig {
        self.config
    }

    /// A builder with no tools and default options.
    pub fn new() -> (r: AgentBuilder)
        ensures
            r.spec_tools() == Seq::<ToolSpec>::empty(),
            r.spec_config().permission_timeout_ms is None,
            r.spec_config().max_steps == DEFAULT_MAX_STEPS,
    {
        AgentBuilder {
            tools: Vec::new(),
            config: AgentConfig { permission_timeout_ms: None, max_steps: DEFAULT_MAX_STEPS },
            logging: LoggingConfig { verbose: false, log_file: None },
        }
    }

    /// Declare one tool by name and capability.
    pub fn with_tool(self, name: String, capability: Capability) -> (r: AgentBuilder)
        ensures
            r.spec_tools() == self.spec_tools().push(ToolSpec { name, capability }),
            r.spec_config() == self.spec_config(),
    {
        let mut tools = self.tools;
        tools.push(ToolSpec { name, capability });
        AgentBuilder { tools, config: self.config, logging: self.logging }
    }

    /// Set the permission-wait timeout.
    pub fn with_permission_timeout_ms(self, ms: u64) -> (r: AgentBuilder)
        ensures
            r.spec_tools() == self.spec_tools(),
            r.spec_config().permission_timeout_ms == Some(ms),
            r.spec_config().max_steps == self.spec_config().max_steps,
    {
        AgentBuilder {
            tools: self.tools,
            config: AgentConfig {
                permission_timeout_ms: Some(ms),
                max_steps: self.config.max_steps,
            },
            logging: self.logging,
        }
    }

    /// Set the step budget of one driver run.
    pub fn with_max_steps(self, max_steps: u64) -> (r: AgentBuilder)
        ensures
            r.spec_tools() == self.spec_tools(),
            r.spec_config().permission_timeout_ms == self.spec_config().permission_timeout_ms,
            r.spec_config().max_steps == max_steps,
    {
        AgentBuilder {
            tools: self.tools,
            config: AgentConfig {
                permission_timeout_ms: self.config.permission_timeout_ms,
                max_steps,
            },
            logging: self.logging,
        }
    }

    /// Set the logging configuration.
    pub fn with_logging(self, logging: LoggingConfig) -> (r: AgentBuilder)
        ensures
            r.spec_tools() == self.spec_tools(),
            r.spec_config() == self.spec_config(),
    {
        AgentBuilder { tools: self.tools, config: self.config, logging }
    }

    /// Build the agent: a fresh core in the starting state with an empty
    /// stream, wired to the given brain and tool runner.
    pub fn build<B: Brain, R: ToolRunner>(self, brain: B, runner: R) -> (r: Agent<B, R>)
        ensures
            r.wf(),
            r.spec_core().spec_state() == crate::states::InternalAgentState::Starting,
            r.spec_core().stream() == Seq::<crate::events::AgentResponse>::empty(),
            r.spec_core().claims_seq() == Seq::<crate::claims::Claim>::empty(),
            r.spec_tools() == self.spec_tools(),
            r.spec_config() == self.spec_config(),
            r.spec_pending_call() is None,
    {
        Agent::assemble(brain, runner, self.tools, self.config, self.logging)
    }
}

} // verus!
