//! The handle around the external reasoning loop.
//!
//! The loop itself runs outside this core; what the core guarantees is which
//! operations reach it and in what order.  A `RunningAgent` records exactly
//! that: the operations delivered so far, and whether the agent was told to
//! stop.

use vstd::prelude::*;

verus! {

/// One operation delivered to the reasoning loop.
#[derive(Debug)]
pub enum AgentOp {
    /// A user query handed to the agent.
    Query(String),
    /// A bare continuation run.
    Run,
    /// The stop signal.
    Stop,
}

/// The query texts among `ops`, in order.
pub open spec fn queries_of(ops: Seq<AgentOp>) -> Seq<Seq<char>>
    decreases ops.len(),
{
    if ops.len() == 0 {
        seq![]
    } else {
        queries_of(ops.subrange(0, ops.len() - 1)) + (match ops[ops.len() - 1] {
            AgentOp::Query(q) => seq![q@],
            _ => seq![],
        })
    }
}

/// The active agent of a session: the single-flight wrapper around the
/// external reasoning loop.  One logical operation runs at a time; the `ops`
/// log is the order in which they reached the loop.
#[derive(Debug)]
pub struct RunningAgent {
    /// Every operation delivered to the reasoning loop, oldest first.
    pub ops: Vec<AgentOp>,
    /// Whether the loop was told to stop.
    pub stopped: bool,
}

impl RunningAgent {
    /// A fresh agent handle: nothing delivered, not stopped.
    pub fn new() -> (r: RunningAgent)
        ensures
            r.ops@.len() == 0,
            !r.stopped,
    {
        RunningAgent { ops: Vec::new(), stopped: false }
    }

    /// Delivers a query to the reasoning loop.
    pub fn query(&mut self, query: &str)
        ensures
            final(self).ops@.len() == old(self).ops@.len() + 1,
            final(self).ops@.subrange(0, old(self).ops@.len() as int) == old(self).ops@,
            final(self).ops@.last() matches AgentOp::Query(q) && q@ == query@,
            final(self).stopped == old(self).stopped,
    {
        self.ops.push(AgentOp::Query(crate::text::copy_str(query)));
        proof {
            assert(self.ops@.subrange(0, old(self).ops@.len() as int) =~= old(self).ops@);
        }
    }

    /// Delivers a bare run to the reasoning loop.
    pub fn run(&mut self)
        ensures
            final(self).ops@ == old(self).ops@.push(AgentOp::Run),
            final(self).stopped == old(self).stopped,
    {
        self.ops.push(AgentOp::Run);
    }

    /// Signals the loop to stop at its next safe point.  A second call is a
    /// no-op, never an error.
    pub fn stop(&mut self)
        ensures
            old(self).stopped ==> final(self).ops@ == old(self).ops@ && final(self).stopped,
            !old(self).stopped ==> final(self).stopped && final(self).ops@ == old(self).ops@.push(
                AgentOp::Stop,
            ),
    {
        if !self.stopped {
            self.ops.push(AgentOp::Stop);
            self.stopped = true;
        }
    }
}

} // verus!
