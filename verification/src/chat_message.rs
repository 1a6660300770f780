//! Chat-message roles as the frontend shows them.

use vstd::prelude::*;

verus! {

/// Who a chat message is from.
#[derive(Clone, Copy, Debug, PartialEq, Eq, Structural)]
pub enum ChatRole {
    User,
    System,
    Command,
    Assistant,
    Tool,
}

impl Default for ChatRole {
    /// The default role is `System`.
    fn default() -> (r: Self)
        ensures
            r == ChatRole::System,
    {
        ChatRole::System
    }
}

impl ChatRole {
    /// The display name of the role.
    pub fn name(&self) -> (r: &'static str)
        ensures
            r@ == (match *self {
                ChatRole::User => "User"@,
                ChatRole::System => "System"@,
                ChatRole::Command => "Command"@,
                ChatRole::Assistant => "Assistant"@,
                ChatRole::Tool => "Tool"@,
            }),
{
        match self {
            ChatRole::User => "User",
            ChatRole::System => "System",
            ChatRole::Command => "Command",
            ChatRole::Assistant => "Assistant",
            ChatRole::Tool => "Tool",
        }
    }
}

/// A chat message as the frontend shows it: who it is from, its text, and
/// the stream it continues when it arrived as a streamed chunk.  The
/// rendered form lives with the renderer, outside this core.
#[derive(Debug)]
pub struct ChatMessage {
    /// Matches partial streamed chunks to the message they update.
    pub stream_id: Option<u128>,
    pub role: ChatRole,
    pub content: String,
}

impl ChatMessage {
    /// A message from the user.
    pub fn new_user(msg: &str) -> (r: ChatMessage)
        ensures
            r.role == ChatRole::User,
            r.content@ == msg@,
            r.stream_id is None,
    {
        ChatMessage { stream_id: None, role: ChatRole::User, content: crate::text::copy_str(msg) }
    }

    /// A message from the backend.
    pub fn new_system(msg: &str) -> (r: ChatMessage)
        ensures
            r.role == ChatRole::System,
            r.content@ == msg@,
            r.stream_id is None,
    {
        ChatMessage {
            stream_id: None,
            role: ChatRole::System,
            content: crate::text::copy_str(msg),
        }
    }

    /// An echoed command.
    pub fn new_command(cmd: &str) -> (r: ChatMessage)
        ensures
            r.role == ChatRole::Command,
            r.content@ == cmd@,
            r.stream_id is None,
    {
        ChatMessage {
            stream_id: None,
            role: ChatRole::Command,
            content: crate::text::copy_str(cmd),
        }
    }

    /// A message from the agent.
    pub fn new_assistant(msg: &str) -> (r: ChatMessage)
        ensures
            r.role == ChatRole::Assistant,
            r.content@ == msg@,
            r.stream_id is None,
    {
        ChatMessage {
            stream_id: None,
            role: ChatRole::Assistant,
            content: crate::text::copy_str(msg),
        }
    }

    /// A tool's report.
    pub fn new_tool(msg: &str) -> (r: ChatMessage)
        ensures
            r.role == ChatRole::Tool,
            r.content@ == msg@,
            r.stream_id is None,
    {
        ChatMessage { stream_id: None, role: ChatRole::Tool, content: crate::text::copy_str(msg) }
    }

    /// The message with another role.
    pub fn with_role(self, role: ChatRole) -> (r: ChatMessage)
        ensures
            r.role == role,
            r.content@ == self.content@,
            r.stream_id == self.stream_id,
    {
        ChatMessage { role, ..self }
    }

    /// The message with other text.
    pub fn with_content(self, content: &str) -> (r: ChatMessage)
        ensures
            r.role == self.role,
            r.content@ == content@,
            r.stream_id == self.stream_id,
    {
        ChatMessage { content: crate::text::copy_str(content), ..self }
    }

    /// The message tied to the stream it updates.
    pub fn with_streaming_id(self, id: u128) -> (r: ChatMessage)
        ensures
            r.role == self.role,
            r.content@ == self.content@,
            r.stream_id == Some(id),
    {
        ChatMessage { stream_id: Some(id), ..self }
    }

    /// The stream this message updates, if it is a chunk.
    pub fn stream_id(&self) -> (r: Option<u128>)
        ensures
            r == self.stream_id,
    {
        self.stream_id
    }

    /// The message's text.
    pub fn content(&self) -> (r: &str)
        ensures
            r@ == self.content@,
    {
        self.content.as_str()
    }

    /// Who the message is from.
    pub fn role(&self) -> (r: &ChatRole)
        ensures
            r == self.role,
    {
        &self.role
    }
}

} // verus!
