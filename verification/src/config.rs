//! The configuration the orchestration core reads: which executor runs tool
//! commands, how git is set up, which agent topology is built, and which
//! tools are offered.  Loading it from disk happens outside; here it is
//! plain data.

pub mod llm_configuration;

use vstd::prelude::*;

verus! {

/// Where tool commands run.
#[derive(Clone, Copy, Debug, PartialEq, Eq, Structural)]
pub enum SupportedToolExecutors {
    /// Directly in the checked-out working copy.
    Local,
    /// Inside an isolated container.
    Docker,
}

/// Which agent topology a session builds.
#[derive(Clone, Copy, Debug, PartialEq, Eq, Structural)]
pub enum SupportedAgentConfigurations {
    /// A single coding agent.
    Coding,
    /// A planning agent that delegates to a coding agent.
    PlanAct,
}

/// How the agent edits files.
#[derive(Clone, Copy, Debug, PartialEq, Eq, Structural)]
pub enum AgentEditMode {
    /// Whole-file writes.
    Whole,
    /// Line-range replacement.
    Line,
    /// Unified-format patches.
    Patch,
}

/// A tool filter for an external tool server.
#[derive(Clone, Debug)]
pub enum ToolFilterDef {
    Whitelist(Vec<String>),
    Blacklist(Vec<String>),
}

/// Project commands the agent's tools can run.
#[derive(Clone, Debug)]
pub struct CommandConfiguration {
    pub test: String,
    pub coverage: String,
    /// Lint and fix the project; run when files were written.
    pub lint_and_fix: Option<String>,
}

impl Default for CommandConfiguration {
    /// Cargo commands, as the project ships them.
    fn default() -> (r: Self)
        ensures
            r.test@ == "cargo test --no-fail-fast --color=never"@,
            r.coverage@ == "cargo tarpaulin --skip-clean"@,
            r.lint_and_fix matches Some(c) && c@
                == "cargo clippy --fix --allow-dirty --allow-staged && cargo fmt"@,
    {
        CommandConfiguration {
            test: String::from_str("cargo test --no-fail-fast --color=never"),
            coverage: String::from_str("cargo tarpaulin --skip-clean"),
            lint_and_fix: Some(
                String::from_str("cargo clippy --fix --allow-dirty --allow-staged && cargo fmt"),
            ),
        }
    }
}

/// The git side of the configuration.
#[derive(Clone, Debug)]
pub struct GitConfiguration {
    /// Clone or pull the main branch when a workspace starts.
    pub clone_repository_on_start: bool,
    /// Identity the agent commits under.
    pub agent_user_name: String,
    pub agent_user_email: String,
    /// The branch clones and pulls start from.
    pub main_branch: String,
    /// Disable the automatic commit after each agent turn.
    pub auto_commit_disabled: bool,
    /// Push to the remote after the automatic commit.
    pub auto_push_remote: bool,
}

/// Everything the orchestration core reads from the configuration.
#[derive(Clone, Debug)]
pub struct Config {
    pub project_name: String,
    pub tool_executor: SupportedToolExecutors,
    pub git: GitConfiguration,
    pub agent: SupportedAgentConfigurations,
    pub agent_edit_mode: AgentEditMode,
    pub commands: CommandConfiguration,
    /// Tools the user switched off, by name.
    pub disabled_tools: Vec<String>,
    /// A GitHub access token, when the GitHub integration is configured.
    pub github_token: Option<String>,
    /// A web-search key, when web search is configured.
    pub tavily_api_key: Option<String>,
}

/// `true` or `false`, as printed.
pub open spec fn bool_text(b: bool) -> Seq<char> {
    if b {
        "true"@
    } else {
        "false"@
    }
}

/// A list of names as printed: each quoted, separated by commas, in
/// brackets.
pub open spec fn quoted_list_spec(xs: Seq<Seq<char>>) -> Seq<char>
    decreases xs.len(),
{
    if xs.len() == 0 {
        Seq::empty()
    } else if xs.len() == 1 {
        "\""@ + xs[0] + "\""@
    } else {
        quoted_list_spec(xs.subrange(0, xs.len() - 1)) + ", \""@ + xs[xs.len() - 1] + "\""@
    }
}

/// The text [`Config::render`] prints: every field the configuration
/// carries, with the two credentials shown only as present or absent.
pub open spec fn config_text_spec(c: Config) -> Seq<char> {
    "project_name = \""@ + c.project_name@ + "\"\ntool_executor = \""@ + (match c.tool_executor {
        SupportedToolExecutors::Local => "local"@,
        SupportedToolExecutors::Docker => "docker"@,
    }) + "\"\nagent = \""@ + (match c.agent {
        SupportedAgentConfigurations::Coding => "coding"@,
        SupportedAgentConfigurations::PlanAct => "plan_act"@,
    }) + "\"\nagent_edit_mode = \""@ + (match c.agent_edit_mode {
        AgentEditMode::Whole => "whole"@,
        AgentEditMode::Line => "line"@,
        AgentEditMode::Patch => "patch"@,
    }) + "\"\ndisabled_tools = ["@ + quoted_list_spec(
        c.disabled_tools@.map_values(|s: String| s@),
    ) + "]\ngithub_configured = "@ + bool_text(c.github_token is Some)
        + "\nweb_search_configured = "@ + bool_text(c.tavily_api_key is Some)
        + "\n\n[git]\nclone_repository_on_start = "@ + bool_text(c.git.clone_repository_on_start)
        + "\nagent_user_name = \""@ + c.git.agent_user_name@ + "\"\nagent_user_email = \""@
        + c.git.agent_user_email@ + "\"\nmain_branch = \""@ + c.git.main_branch@
        + "\"\nauto_commit_disabled = "@ + bool_text(c.git.auto_commit_disabled)
        + "\nauto_push_remote = "@ + bool_text(c.git.auto_push_remote)
        + "\n\n[commands]\ntest = \""@ + c.commands.test@ + "\"\ncoverage = \""@
        + c.commands.coverage@ + "\""@ + (match c.commands.lint_and_fix {
        Some(l) => "\nlint_and_fix = \""@ + l@ + "\""@,
        None => Seq::empty(),
    })
}

/// Copies a list of strings.
pub fn clone_string_vec(v: &Vec<String>) -> (r: Vec<String>)
    ensures
        r@.map_values(|s: String| s@) == v@.map_values(|s: String| s@),
{
    let mut out: Vec<String> = Vec::new();
    let mut i: usize = 0;
    while i < v.len()
        invariant
            i <= v@.len(),
            out@.len() == i,
            forall|j: int| 0 <= j < i ==> out@[j]@ == v@[j]@,
        decreases v@.len() - i,
    {
        out.push(v[i].clone());
        i += 1;
    }
    proof {
        assert(out@.map_values(|s: String| s@) =~= v@.map_values(|s: String| s@));
    }
    out
}

fn clone_opt_string(v: &Option<String>) -> (r: Option<String>)
    ensures
        (r is Some) == (v is Some),
        r matches Some(s) ==> v matches Some(o) && s@ == o@,
{
    match v {
        Some(s) => Some(s.clone()),
        None => None,
    }
}

/// Prints a list of names: each quoted, separated by commas.
fn quoted_list(xs: &Vec<String>) -> (r: String)
    ensures
        r@ == quoted_list_spec(xs@.map_values(|s: String| s@)),
{
    let ghost views = xs@.map_values(|s: String| s@);
    let mut out = String::new();
    let mut i: usize = 0;
    proof {
        assert(views.subrange(0, 0) =~= Seq::<Seq<char>>::empty());
        assert(quoted_list_spec(views.subrange(0, 0)) =~= Seq::<char>::empty());
    }
    while i < xs.len()
        invariant
            views == xs@.map_values(|s: String| s@),
            i <= views.len(),
            out@ == quoted_list_spec(views.subrange(0, i as int)),
        decreases views.len() - i,
    {
        if i == 0 {
            out.append("\"");
        } else {
            out.append(", \"");
        }
        out.append(xs[i].as_str());
        out.append("\"");
        proof {
            let post = views.subrange(0, i + 1 as int);
            assert(post.subrange(0, post.len() - 1) =~= views.subrange(0, i as int));
            assert(post[post.len() - 1] == views[i as int]);
            assert(views[i as int] == xs@[i as int]@);
            assert(out@ =~= quoted_list_spec(post));
        }
        i += 1;
    }
    proof {
        assert(views.subrange(0, views.len() as int) =~= views);
    }
    out
}

impl Config {
    /// A field-for-field copy.
    pub fn duplicate(&self) -> (r: Config)
        ensures
            r.project_name@ == self.project_name@,
            r.tool_executor == self.tool_executor,
            r.git.clone_repository_on_start == self.git.clone_repository_on_start,
            r.git.agent_user_name@ == self.git.agent_user_name@,
            r.git.agent_user_email@ == self.git.agent_user_email@,
            r.git.main_branch@ == self.git.main_branch@,
            r.git.auto_commit_disabled == self.git.auto_commit_disabled,
            r.git.auto_push_remote == self.git.auto_push_remote,
            r.agent == self.agent,
            r.agent_edit_mode == self.agent_edit_mode,
            r.commands.test@ == self.commands.test@,
            r.commands.coverage@ == self.commands.coverage@,
            r.disabled_tools@.map_values(|s: String| s@) == self.disabled_tools@.map_values(
                |s: String| s@,
            ),
            (r.github_token is Some) == (self.github_token is Some),
            (r.tavily_api_key is Some) == (self.tavily_api_key is Some),
    {
        Config {
            project_name: self.project_name.clone(),
            tool_executor: self.tool_executor,
            git: GitConfiguration {
                clone_repository_on_start: self.git.clone_repository_on_start,
                agent_user_name: self.git.agent_user_name.clone(),
                agent_user_email: self.git.agent_user_email.clone(),
                main_branch: self.git.main_branch.clone(),
                auto_commit_disabled: self.git.auto_commit_disabled,
                auto_push_remote: self.git.auto_push_remote,
            },
            agent: self.agent,
            agent_edit_mode: self.agent_edit_mode,
            commands: CommandConfiguration {
                test: self.commands.test.clone(),
                coverage: self.commands.coverage.clone(),
                lint_and_fix: clone_opt_string(&self.commands.lint_and_fix),
            },
            disabled_tools: clone_string_vec(&self.disabled_tools),
            github_token: clone_opt_string(&self.github_token),
            tavily_api_key: clone_opt_string(&self.tavily_api_key),
        }
    }

    /// Prints the configuration as it is shown to the user: every field,
    /// the two credentials only as present or absent.
    #[verifier::rlimit(80)]
    pub fn render(&self) -> (r: String)
        ensures
            r@ == config_text_spec(*self),
    {
        let mut out = String::from_str("project_name = \"");
        out.append(self.project_name.as_str());
        out.append("\"\ntool_executor = \"");
        match self.tool_executor {
            SupportedToolExecutors::Local => out.append("local"),
            SupportedToolExecutors::Docker => out.append("docker"),
        }
        out.append("\"\nagent = \"");
        match self.agent {
            SupportedAgentConfigurations::Coding => out.append("coding"),
            SupportedAgentConfigurations::PlanAct => out.append("plan_act"),
        }
        out.append("\"\nagent_edit_mode = \"");
        match self.agent_edit_mode {
            AgentEditMode::Whole => out.append("whole"),
            AgentEditMode::Line => out.append("line"),
            AgentEditMode::Patch => out.append("patch"),
        }
        out.append("\"\ndisabled_tools = [");
        let listed = quoted_list(&self.disabled_tools);
        out.append(listed.as_str());
        out.append("]\ngithub_configured = ");
        out.append(if self.github_token.is_some() {
            "true"
        } else {
            "false"
        });
        out.append("\nweb_search_configured = ");
        out.append(if self.tavily_api_key.is_some() {
            "true"
        } else {
            "false"
        });
        out.append("\n\n[git]\nclone_repository_on_start = ");
        out.append(if self.git.clone_repository_on_start {
            "true"
        } else {
            "false"
        });
        out.append("\nagent_user_name = \"");
        out.append(self.git.agent_user_name.as_str());
        out.append("\"\nagent_user_email = \"");
        out.append(self.git.agent_user_email.as_str());
        out.append("\"\nmain_branch = \"");
        out.append(self.git.main_branch.as_str());
        out.append("\"\nauto_commit_disabled = ");
        out.append(if self.git.auto_commit_disabled {
            "true"
        } else {
            "false"
        });
        out.append("\nauto_push_remote = ");
        out.append(if self.git.auto_push_remote {
            "true"
        } else {
            "false"
        });
        out.append("\n\n[commands]\ntest = \"");
        out.append(self.commands.test.as_str());
        out.append("\"\ncoverage = \"");
        out.append(self.commands.coverage.as_str());
        out.append("\"");
        if let Some(l) = &self.commands.lint_and_fix {
            out.append("\nlint_and_fix = \"");
            out.append(l.as_str());
            out.append("\"");
        }
        proof {
            assert(out@ =~= config_text_spec(*self));
        }
        out
    }

    /// True when the GitHub integration can be used.
    pub fn is_github_enabled(&self) -> (r: bool)
        ensures
            r == (self.github_token is Some),
    {
        self.github_token.is_some()
    }
}

} // verus!
