//! A responder that keeps everything it hears, for an evaluation log.

use vstd::prelude::*;

use crate::text;
use crate::text::join_spec;

verus! {

/// Collects every notification as a tagged line.
#[derive(Debug)]
pub struct LoggingResponder {
    messages: Vec<String>,
}

impl LoggingResponder {
    /// An empty log.
    pub fn new() -> (r: LoggingResponder)
        ensures
            r.log_lines().len() == 0,
    {
        LoggingResponder { messages: Vec::new() }
    }

    /// The collected lines, oldest first.
    pub closed spec fn log_lines(&self) -> Seq<Seq<char>> {
        self.messages@.map_values(|s: String| s@)
    }

    /// Records a message from the agent.
    pub fn agent_message(&mut self, message: &str)
        ensures
            final(self).log_lines() == old(self).log_lines().push(
                "DEBUG: Agent message: "@ + message@,
            ),
    {
        let mut line = String::from_str("DEBUG: Agent message: ");
        line.append(message);
        self.messages.push(line);
        proof {
            assert(self.log_lines() =~= old(self).log_lines().push(
                "DEBUG: Agent message: "@ + message@,
            ));
        }
    }

    /// Records a state update.
    pub fn update(&mut self, message: &str)
        ensures
            final(self).log_lines() == old(self).log_lines().push(
                "DEBUG: State update: "@ + message@,
            ),
    {
        let mut line = String::from_str("DEBUG: State update: ");
        line.append(message);
        self.messages.push(line);
        proof {
            assert(self.log_lines() =~= old(self).log_lines().push(
                "DEBUG: State update: "@ + message@,
            ));
        }
    }

    /// Records a backend system message.
    pub fn system_message(&mut self, message: &str)
        ensures
            final(self).log_lines() == old(self).log_lines().push(
                "DEBUG: System message: "@ + message@,
            ),
    {
        let mut line = String::from_str("DEBUG: System message: ");
        line.append(message);
        self.messages.push(line);
        proof {
            assert(self.log_lines() =~= old(self).log_lines().push(
                "DEBUG: System message: "@ + message@,
            ));
        }
    }

    /// The whole log, lines joined with newlines.
    pub fn get_log(&self) -> (r: String)
        ensures
            r@ == join_spec(self.log_lines(), "\n"@),
    {
        text::join(&self.messages, "\n")
    }
}

} // verus!
