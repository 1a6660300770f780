//! The small configured tools the agent can carry: each is a name plus the
//! piece of state it needs when invoked.  Running them is I/O and happens
//! outside; here each tool states what command it would issue.

use vstd::prelude::*;

use crate::text;

verus! {

/// Resets a file back to the ref the session started from.
#[derive(Debug)]
pub struct ResetFile {
    pub start_ref: String,
}

impl ResetFile {
    pub fn new(start_ref: &str) -> (r: Self)
        ensures
            r.start_ref@ == start_ref@,
    {
        ResetFile { start_ref: text::copy_str(start_ref) }
    }

    /// The shell command the tool issues for `file_name`.
    pub fn reset_command(&self, file_name: &str) -> (r: String)
        ensures
            r@ == "git checkout "@ + self.start_ref@ + " -- "@ + file_name@,
    {
        let mut cmd = String::from_str("git checkout ");
        cmd.append(self.start_ref.as_str());
        cmd.append(" -- ");
        cmd.append(file_name);
        cmd
    }
}

/// Runs the project's configured test command.
#[derive(Debug)]
pub struct RunTests {
    pub test_command: String,
}

impl RunTests {
    pub fn new(test_command: &str) -> (r: Self)
        ensures
            r.test_command@ == test_command@,
    {
        RunTests { test_command: text::copy_str(test_command) }
    }
}

/// Runs the project's configured coverage command.
#[derive(Debug)]
pub struct RunCoverage {
    pub coverage_command: String,
}

impl RunCoverage {
    pub fn new(coverage_command: &str) -> (r: Self)
        ensures
            r.coverage_command@ == coverage_command@,
    {
        RunCoverage { coverage_command: text::copy_str(coverage_command) }
    }
}

} // verus!
