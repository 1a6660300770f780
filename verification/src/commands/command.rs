//! The command surface of the core, and the event wrapper a command is
//! dispatched in.

use vstd::prelude::*;

use crate::commands::responder::Responder;
use crate::repository::Repository;

verus! {

/// What a caller can ask the core to do.  Every command is dispatched for a
/// session uuid.
#[derive(Debug)]
pub enum Command {
    /// Cleanly stop the backend; in-flight work is drained first.
    Quit,
    /// Print the configuration of the repository.
    ShowConfig,
    /// Re-index the repository.
    IndexRepository,
    /// Stop the session's agent.
    StopAgent,
    /// Chat with the session's agent.
    Chat { message: String },
    /// Show the changes the agent has made.
    Diff,
    /// Run a command in the session's workspace and report its output.
    Exec { cmd: String },
    /// Retry the last chat turn.
    RetryChat,
    /// Hand requested feedback back to the agent: the tool call, and the
    /// feedback.
    ToolFeedback { tool_call: String, feedback: String },
}

impl Command {
    /// True for `Quit`.
    pub fn is_quit(&self) -> (r: bool)
        ensures
            r == (*self is Quit),
    {
        matches!(self, Command::Quit)
    }

    /// The command's name, as messages print it.
    pub fn name(&self) -> (r: &'static str)
        ensures
            r@ == command_name(*self),
    {
        match self {
            Command::Quit => "quit",
            Command::ShowConfig => "show_config",
            Command::IndexRepository => "index_repository",
            Command::StopAgent => "stop_agent",
            Command::Chat { .. } => "chat",
            Command::Diff => "diff",
            Command::Exec { .. } => "exec",
            Command::RetryChat => "retry_chat",
            Command::ToolFeedback { .. } => "tool_feedback",
        }
    }
}

/// The name a command is printed under.
pub open spec fn command_name(c: Command) -> Seq<char> {
    match c {
        Command::Quit => "quit"@,
        Command::ShowConfig => "show_config"@,
        Command::IndexRepository => "index_repository"@,
        Command::StopAgent => "stop_agent"@,
        Command::Chat { .. } => "chat"@,
        Command::Diff => "diff"@,
        Command::Exec { .. } => "exec"@,
        Command::RetryChat => "retry_chat"@,
        Command::ToolFeedback { .. } => "tool_feedback"@,
    }
}

/// A dispatched command: the command, its session uuid, the repository it
/// concerns, and the responder its results go to.  Immutable once
/// dispatched, except that the responder collects what is sent to it.
#[derive(Debug)]
pub struct CommandEvent {
    pub command: Command,
    pub repository: Option<Repository>,
    pub uuid: u128,
    pub responder: Responder,
}

impl CommandEvent {
    /// Starts describing an event.
    pub fn builder() -> (r: CommandEventBuilder)
        ensures
            r.command is None,
            r.repository is None,
            r.uuid is None,
    {
        CommandEventBuilder { command: None, repository: None, uuid: None }
    }

    /// The repository the event concerns, when it carries one.
    pub fn repository(&self) -> (r: Option<&Repository>)
        ensures
            r is Some <==> self.repository is Some,
            r matches Some(repo) ==> self.repository matches Some(e) && e == *repo,
    {
        self.repository.as_ref()
    }

    /// The session uuid the event is for.
    pub fn uuid(&self) -> (r: u128)
        ensures
            r == self.uuid,
    {
        self.uuid
    }

    /// The command carried by the event.
    pub fn command(&self) -> (r: &Command)
        ensures
            r == self.command,
    {
        &self.command
    }

    /// The responder the event reports to.
    pub fn responder(&self) -> (r: &Responder)
        ensures
            r == self.responder,
    {
        &self.responder
    }

    /// Redirects the event at another session.
    pub fn with_uuid(&mut self, uuid: u128)
        ensures
            final(self).uuid == uuid,
            final(self).command == old(self).command,
            final(self).repository == old(self).repository,
            final(self).responder == old(self).responder,
    {
        self.uuid = uuid;
    }

    /// Attaches a repository to the event.
    pub fn with_repository(&mut self, repository: Repository)
        ensures
            final(self).repository == Some(repository),
            final(self).command == old(self).command,
            final(self).uuid == old(self).uuid,
            final(self).responder == old(self).responder,
    {
        self.repository = Some(repository);
    }

    /// Attaches, or detaches, a repository.
    pub fn with_maybe_repository(&mut self, repository: Option<Repository>)
        ensures
            final(self).repository == repository,
            final(self).command == old(self).command,
            final(self).uuid == old(self).uuid,
            final(self).responder == old(self).responder,
    {
        self.repository = repository;
    }
}

/// Collects the pieces of a [`CommandEvent`]; the responder starts empty.
#[derive(Debug)]
pub struct CommandEventBuilder {
    pub command: Option<Command>,
    pub repository: Option<Repository>,
    pub uuid: Option<u128>,
}

/// The builder was missing a field.
#[derive(Clone, Copy, Debug, PartialEq, Eq, Structural)]
pub struct EventBuilderIncomplete;

impl CommandEventBuilder {
    pub fn command(&mut self, command: Command)
        ensures
            final(self).command == Some(command),
            final(self).repository == old(self).repository,
            final(self).uuid == old(self).uuid,
    {
        self.command = Some(command);
    }

    pub fn repository(&mut self, repository: Repository)
        ensures
            final(self).repository == Some(repository),
            final(self).command == old(self).command,
            final(self).uuid == old(self).uuid,
    {
        self.repository = Some(repository);
    }

    pub fn uuid(&mut self, uuid: u128)
        ensures
            final(self).uuid == Some(uuid),
            final(self).command == old(self).command,
            final(self).repository == old(self).repository,
    {
        self.uuid = Some(uuid);
    }

    /// Builds the event; the command and the uuid must have been given.
    pub fn build(self) -> (r: Result<CommandEvent, EventBuilderIncomplete>)
        ensures
            (r is Ok) <==> (self.command is Some && self.uuid is Some),
            r matches Ok(e) ==> self.command == Some(e.command) && self.uuid == Some(e.uuid)
                && e.repository == self.repository && e.responder.sent@.len() == 0,
    {
        let CommandEventBuilder { command, repository, uuid } = self;
        let command = match command {
            Some(c) => c,
            None => {
                return Err(EventBuilderIncomplete);
            },
        };
        let uuid = match uuid {
            Some(u) => u,
            None => {
                return Err(EventBuilderIncomplete);
            },
        };
        Ok(CommandEvent { command, repository, uuid, responder: Responder::new() })
    }
}

} // verus!
