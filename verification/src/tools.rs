//! The uniform tool contract the core sees: a named tool with a declared
//! capability, invoked through a runner.  The core never needs to know what a
//! tool does — only whether its capability requires a claim before
//! invocation.

use vstd::prelude::*;
use crate::claims::Capability;

verus! {

/// One tool as the core knows it: a name and the capability it declares.
#[derive(Clone, Debug, PartialEq)]
pub struct ToolSpec {
    pub name: String,
    pub capability: Capability,
}

/// One concrete invocation a brain asked for.
#[derive(Clone, Debug, PartialEq)]
pub struct ToolCall {
    pub name: String,
    pub arguments: String,
}

/// What a tool execution reported.  A failure here is unrecoverable and ends
/// the task run as failed.
#[derive(Clone, Debug, PartialEq)]
pub enum ToolResult {
    Success { output: String },
    Failure { message: String },
}

/// Executes tool invocations on the core's behalf.  Implementations do the
/// actual outside work, so nothing is promised of their results; the core is
/// verified for every possible outcome.
pub trait ToolRunner {
    fn run_tool(&mut self, call: &ToolCall) -> ToolResult;
}

/// The first tool of the given name, if any.
pub open spec fn spec_find_tool(tools: Seq<ToolSpec>, name: Seq<char>) -> Option<ToolSpec>
    decreases tools.len(),
{
    if tools.len() == 0 {
        None
    } else if tools[0].name@ == name {
        Some(tools[0])
    } else {
        spec_find_tool(tools.drop_first(), name)
    }
}

/// Look a tool up by name: the first entry whose name matches.
pub fn find_tool<'a>(tools: &'a Vec<ToolSpec>, name: &String) -> (r: Option<&'a ToolSpec>)
    ensures
        match r {
            Some(t) => spec_find_tool(tools@, name@) == Some(*t),
            None => spec_find_tool(tools@, name@) is None,
        },
{
    let n = tools.len();
    proof {
        assert(tools@.skip(0) =~= tools@);
    }
    for i in 0..n
        invariant
            n == tools@.len(),
            spec_find_tool(tools@, name@) == spec_find_tool(tools@.skip(i as int), name@),
    {
        proof {
            assert(tools@.skip(i as int)[0] == tools@[i as int]);
            assert(tools@.skip(i as int).drop_first() =~= tools@.skip(i + 1));
        }
        if tools[i].name == *name {
            return Some(&tools[i]);
        }
    }
    proof {
        assert(tools@.skip(n as int).len() == 0);
    }
    None
}

/// A runner that records every invocation and answers each with a fixed
/// reply.  It makes "the tool was never executed" an observable fact.
pub struct RecordingRunner {
    calls: Vec<ToolCall>,
    reply: String,
}

impl RecordingRunner {
    /// The invocations this runner has performed, oldest first.
    pub closed spec fn spec_calls(&self) -> Seq<ToolCall> {
        self.calls@
    }

    pub fn new(reply: String) -> (r: RecordingRunner)
        ensures
            r.spec_calls() == Seq::<ToolCall>::empty(),
    {
        RecordingRunner { calls: Vec::new(), reply }
    }

    /// How many invocations have run.
    pub fn call_count(&self) -> (r: usize)
        ensures
            r == self.spec_calls().len(),
    {
        self.calls.len()
    }

    /// The recorded invocations.
    pub fn calls(&self) -> (r: &Vec<ToolCall>)
        ensures
            r@ == self.spec_calls(),
    {
        &self.calls
    }
}

impl ToolRunner for RecordingRunner {
    fn run_tool(&mut self, call: &ToolCall) -> ToolResult {
        self.calls.push(call.clone());
        ToolResult::Success { output: self.reply.clone() }
    }
}

} // verus!
