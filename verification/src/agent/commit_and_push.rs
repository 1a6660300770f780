//! The after-each-turn hook: commit what the agent changed, and push it
//! when the remote is usable.

use vstd::prelude::*;

use crate::agent::git_agent_environment::GitAgentEnvironment;
use crate::repository::Repository;

verus! {

/// What the hook will do after each agent turn, fixed once per session from
/// the configuration and the workspace snapshot.
#[derive(Debug)]
pub struct CommitAndPush {
    pub auto_commit_enabled: bool,
    pub push_to_remote_enabled: bool,
}

impl CommitAndPush {
    /// Commit unless switched off; push only when the snapshot says the
    /// remote is usable and the configuration wants pushes.
    pub fn new(repository: &Repository, agent_env: &GitAgentEnvironment) -> (r: Self)
        ensures
            r.auto_commit_enabled == !repository.config.git.auto_commit_disabled,
            r.push_to_remote_enabled == (agent_env.remote_enabled
                && repository.config.git.auto_push_remote),
    {
        let auto_commit_enabled = !repository.config().git.auto_commit_disabled;
        let push_to_remote_enabled = agent_env.remote_enabled
            && repository.config().git.auto_push_remote;
        CommitAndPush { auto_commit_enabled, push_to_remote_enabled }
    }

    /// The shell commands the hook issues after a turn, in order.
    pub fn hook_commands(&self) -> (r: Vec<String>)
        ensures
            r@.map_values(|s: String| s@) == (if self.auto_commit_enabled {
                seq![
                    "git add ."@,
                    "git commit -m \"[kwaak]: Committed changes after completion\""@,
                ]
            } else {
                Seq::<Seq<char>>::empty()
            }) + (if self.push_to_remote_enabled {
                seq!["git push"@]
            } else {
                Seq::<Seq<char>>::empty()
            }),
    {
        let mut out: Vec<String> = Vec::new();
        if self.auto_commit_enabled {
            out.push(String::from_str("git add ."));
            out.push(
                String::from_str("git commit -m \"[kwaak]: Committed changes after completion\""),
            );
        }
        if self.push_to_remote_enabled {
            out.push(String::from_str("git push"));
        }
        proof {
            assert(out@.map_values(|s: String| s@) =~= (if self.auto_commit_enabled {
                seq![
                    "git add ."@,
                    "git commit -m \"[kwaak]: Committed changes after completion\""@,
                ]
            } else {
                Seq::<Seq<char>>::empty()
            }) + (if self.push_to_remote_enabled {
                seq!["git push"@]
            } else {
                Seq::<Seq<char>>::empty()
            }));
        }
        out
    }
}

} // verus!
