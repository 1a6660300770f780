//! The output sink of a command: everything the core reports back goes
//! through a responder, and every dispatched command ends with a terminal
//! `Completed`.

use vstd::prelude::*;

use crate::text;

verus! {

/// One notification to whoever issued a command.
#[derive(Debug)]
pub enum Response {
    /// A message coming from an agent.
    Chat(String),
    /// A short activity update.
    Activity(String),
    /// The chat was renamed.
    RenameChat(String),
    /// The chat's branch was renamed.
    RenameBranch(String),
    /// A backend system message.
    BackendMessage(String),
    /// The command is finished; nothing more follows for it.
    Completed,
    /// A streamed chunk of a chat message.
    ChatChunk(String),
    /// The agent asks for feedback on a tool call: the call, the payload.
    ToolFeedbackRequested(String, String),
}

/// A responder that keeps everything sent through it, in order.
#[derive(Debug)]
pub struct Responder {
    /// Every response sent, oldest first.
    pub sent: Vec<Response>,
}

/// True when `m` is a backend system message with the text `text`.
pub open spec fn is_system_message(m: Response, text: Seq<char>) -> bool {
    match m {
        Response::BackendMessage(s) => s@ == text,
        _ => false,
    }
}

/// How many of the responses are the terminal `Completed`.
pub open spec fn completed_count(sent: Seq<Response>) -> int
    decreases sent.len(),
{
    if sent.len() == 0 {
        0
    } else {
        completed_count(sent.subrange(0, sent.len() - 1)) + (if sent[sent.len() - 1] is Completed {
            1int
        } else {
            0int
        })
    }
}

/// Appending one response that is not `Completed` keeps the completed count.
pub proof fn lemma_count_push_other(before: Seq<Response>, after: Seq<Response>)
    requires
        after.len() == before.len() + 1,
        after.subrange(0, before.len() as int) == before,
        !(after.last() is Completed),
    ensures
        completed_count(after) == completed_count(before),
{
    assert(after.subrange(0, after.len() - 1) == before);
}

/// Appending one `Completed` raises the completed count by one.
pub proof fn lemma_count_push_completed(before: Seq<Response>, after: Seq<Response>)
    requires
        after.len() == before.len() + 1,
        after.subrange(0, before.len() as int) == before,
        after.last() is Completed,
    ensures
        completed_count(after) == completed_count(before) + 1,
{
    assert(after.subrange(0, after.len() - 1) == before);
}

impl Responder {
    /// A responder with nothing sent yet.
    pub fn new() -> (r: Responder)
        ensures
            r.sent@.len() == 0,
    {
        Responder { sent: Vec::new() }
    }

    /// Sends one response.
    pub fn send(&mut self, response: Response)
        ensures
            final(self).sent@ == old(self).sent@.push(response),
    {
        self.sent.push(response);
    }

    /// Sends a backend system message.
    pub fn system_message(&mut self, message: &str)
        ensures
            final(self).sent@.len() == old(self).sent@.len() + 1,
            final(self).sent@.subrange(0, old(self).sent@.len() as int) == old(self).sent@,
            is_system_message(final(self).sent@.last(), message@),
    {
        let ghost prev = self.sent@;
        self.sent.push(Response::BackendMessage(text::copy_str(message)));
        proof {
            assert(self.sent@.subrange(0, prev.len() as int) =~= prev);
        }
    }

    /// Sends a short activity update.
    pub fn update(&mut self, state: &str)
        ensures
            final(self).sent@.len() == old(self).sent@.len() + 1,
            final(self).sent@.subrange(0, old(self).sent@.len() as int) == old(self).sent@,
            final(self).sent@.last() matches Response::Activity(s) && s@ == state@,
    {
        let ghost prev = self.sent@;
        self.sent.push(Response::Activity(text::copy_str(state)));
        proof {
            assert(self.sent@.subrange(0, prev.len() as int) =~= prev);
        }
    }

    /// Reports the chat's new name.
    pub fn rename_chat(&mut self, name: &str)
        ensures
            final(self).sent@.len() == old(self).sent@.len() + 1,
            final(self).sent@.subrange(0, old(self).sent@.len() as int) == old(self).sent@,
            final(self).sent@.last() matches Response::RenameChat(s) && s@ == name@,
    {
        let ghost prev = self.sent@;
        self.sent.push(Response::RenameChat(text::copy_str(name)));
        proof {
            assert(self.sent@.subrange(0, prev.len() as int) =~= prev);
        }
    }

    /// Reports the chat's new branch name.
    pub fn rename_branch(&mut self, branch_name: &str)
        ensures
            final(self).sent@.len() == old(self).sent@.len() + 1,
            final(self).sent@.subrange(0, old(self).sent@.len() as int) == old(self).sent@,
            final(self).sent@.last() matches Response::RenameBranch(s) && s@ == branch_name@,
    {
        let ghost prev = self.sent@;
        self.sent.push(Response::RenameBranch(text::copy_str(branch_name)));
        proof {
            assert(self.sent@.subrange(0, prev.len() as int) =~= prev);
        }
    }
}

} // verus!
