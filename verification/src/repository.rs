//! A repository the core works on: its configuration, as plain data.

use vstd::prelude::*;

use crate::config::Config;

verus! {

/// The repository a session is about.
#[derive(Clone, Debug)]
pub struct Repository {
    pub config: Config,
}

impl Repository {
    /// A repository with the given configuration.
    pub fn from_config(config: Config) -> (r: Repository)
        ensures
            r.config == config,
    {
        Repository { config }
    }

    /// The repository's configuration.
    pub fn config(&self) -> (r: &Config)
        ensures
            r == self.config,
    {
        &self.config
    }

    /// A copy of the repository; the copied configuration keeps every
    /// field.
    pub fn duplicate(&self) -> (r: Repository)
        ensures
            r.config.project_name@ == self.config.project_name@,
            r.config.tool_executor == self.config.tool_executor,
            r.config.git.clone_repository_on_start == self.config.git.clone_repository_on_start,
            r.config.git.main_branch@ == self.config.git.main_branch@,
            r.config.git.agent_user_name@ == self.config.git.agent_user_name@,
            r.config.git.agent_user_email@ == self.config.git.agent_user_email@,
            r.config.git.auto_commit_disabled == self.config.git.auto_commit_disabled,
            r.config.git.auto_push_remote == self.config.git.auto_push_remote,
            r.config.agent == self.config.agent,
            r.config.agent_edit_mode == self.config.agent_edit_mode,
            r.config.commands.test@ == self.config.commands.test@,
            r.config.commands.coverage@ == self.config.commands.coverage@,
            r.config.disabled_tools@.map_values(|s: String| s@)
                == self.config.disabled_tools@.map_values(|s: String| s@),
            (r.config.github_token is Some) == (self.config.github_token is Some),
            (r.config.tavily_api_key is Some) == (self.config.tavily_api_key is Some),
    {
        Repository { config: self.config.duplicate() }
    }

    /// The repository's configuration, for changing it.
    pub fn config_mut(&mut self) -> (r: &mut Config)
        ensures
            *r == old(self).config,
            final(self).config == *final(r),
    {
        &mut self.config
    }
}

} // verus!
