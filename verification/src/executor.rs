//! Model of the tool-executor surface: the commands this core issues and the
//! outcomes the environment answers them with.
//!
//! The core never runs a shell itself; it decides which command to issue next
//! and what its outcome means.  A [`ScriptedExecutor`] carries the outcomes,
//! in order, and records every command issued through it, so contracts can
//! speak both about what was asked of the environment and about what was done
//! with each answer.

use vstd::prelude::*;

verus! {

/// A command issued to a tool executor.
#[derive(Debug)]
pub enum ExecCommand {
    /// A shell command line.
    Shell(String),
    /// Read a file by path.
    ReadFile(String),
    /// Write a file: path, then contents.
    WriteFile(String, String),
}

/// What a finished command printed.
#[derive(Debug)]
pub struct CommandOutput {
    pub output: String,
}

/// How a command failed.
#[derive(Debug)]
pub enum CommandError {
    /// The command ran and exited non-zero; its output is still available.
    NonZeroExit(CommandOutput),
    /// The command could not be run at all.
    Failed(String),
}

impl CommandOutput {
    /// A field-for-field copy.
    pub fn duplicate(&self) -> (r: CommandOutput)
        ensures
            r == *self,
    {
        CommandOutput { output: self.output.clone() }
    }
}

impl CommandError {
    /// A field-for-field copy.
    pub fn duplicate(&self) -> (r: CommandError)
        ensures
            r == *self,
    {
        match self {
            CommandError::NonZeroExit(o) => CommandError::NonZeroExit(o.duplicate()),
            CommandError::Failed(m) => CommandError::Failed(m.clone()),
        }
    }
}

/// Duplicates a command outcome.
pub fn duplicate_exec_result(r: &Result<CommandOutput, CommandError>) -> (d: Result<
    CommandOutput,
    CommandError,
>)
    ensures
        d == *r,
{
    match r {
        Ok(o) => Ok(o.duplicate()),
        Err(e) => Err(e.duplicate()),
    }
}

/// An executor whose answers are given up front: the environment's side of a
/// run, written down.  Every command issued through it is recorded in
/// `issued`; the `cursor` points at the next answer.
#[derive(Debug)]
pub struct ScriptedExecutor {
    /// The outcomes to hand out, in order.
    pub responses: Vec<Result<CommandOutput, CommandError>>,
    /// How many outcomes have been handed out.
    pub cursor: usize,
    /// Every command issued so far, oldest first.
    pub issued: Vec<ExecCommand>,
}

/// True when `c` is the shell command `text`.
pub open spec fn is_shell(c: ExecCommand, text: Seq<char>) -> bool {
    match c {
        ExecCommand::Shell(s) => s@ == text,
        _ => false,
    }
}

/// True when the executor has an outcome for its `k`-th upcoming command and
/// that outcome is a success.
pub open spec fn ok_at(ex: ScriptedExecutor, k: int) -> bool {
    ex.cursor + k < ex.responses@.len() && ex.responses@[ex.cursor + k] is Ok
}

/// Whether the script still has an answer for the `k`-th upcoming command:
/// `1` when it does, `0` when the script is exhausted there.
pub open spec fn avail_at(ex: ScriptedExecutor, k: int) -> int {
    if ex.cursor + k < ex.responses@.len() {
        1
    } else {
        0
    }
}

/// What the executor's `k`-th upcoming command prints; empty when its
/// outcome is not a success.
pub open spec fn out_at(ex: ScriptedExecutor, k: int) -> Seq<char> {
    if ex.cursor + k < ex.responses@.len() {
        match ex.responses@[ex.cursor + k] {
            Ok(o) => o.output@,
            Err(_) => Seq::empty(),
        }
    } else {
        Seq::empty()
    }
}

impl ScriptedExecutor {
    /// An executor that will answer with `responses`, in order.
    pub fn new(responses: Vec<Result<CommandOutput, CommandError>>) -> (r: ScriptedExecutor)
        ensures
            r.responses == responses,
            r.cursor == 0,
            r.issued@.len() == 0,
    {
        ScriptedExecutor { responses, cursor: 0, issued: Vec::new() }
    }

    /// Issues `cmd` and hands out the next scripted outcome; a command past
    /// the end of the script fails and consumes nothing.
    pub fn exec_cmd(&mut self, cmd: ExecCommand) -> (r: Result<CommandOutput, CommandError>)
        ensures
            final(self).issued@ == old(self).issued@.push(cmd),
            final(self).responses == old(self).responses,
            final(self).cursor == old(self).cursor + avail_at(*old(self), 0),
            old(self).cursor < old(self).responses@.len() ==> r == old(self).responses@[old(self).cursor as int],
            old(self).cursor >= old(self).responses@.len() ==> (r matches Err(
                CommandError::Failed(_),
            )),
    {
        self.issued.push(cmd);
        if self.cursor < self.responses.len() {
            let r = duplicate_exec_result(&self.responses[self.cursor]);
            self.cursor = self.cursor + 1;
            r
        } else {
            Err(CommandError::Failed(String::from_str("no outcome left in the script")))
        }
    }
}

} // verus!
