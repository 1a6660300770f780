//! Sessions: one per chat uuid, bundling the active agent, the executor,
//! the frozen workspace snapshot and the cancellation token.
//!
//! The outside steps of session creation — the title call, starting the
//! executor, the branch-name proposal, the context fetch, building the
//! agent — happen elsewhere; their outcomes come in as a
//! [`SessionPrereqs`] value, and creation is all-or-nothing over them.

use vstd::prelude::*;

use crate::agent::git_agent_environment::GitAgentEnvironment;
use crate::agent::git_agent_environment::SetupError;
use crate::agent::git_agent_environment::setup_succeeds;
use crate::agent::git_agent_environment::remote_enabled_spec;
use crate::agent::running_agent::AgentOp;
use crate::agent::running_agent::RunningAgent;
use crate::config::SupportedToolExecutors::Local;
use crate::executor::ScriptedExecutor;
use crate::git::github::GithubSession;
use crate::repository::Repository;
use crate::text;

verus! {

/// The cooperative cancellation flag of a session.  It is replaced, never
/// mutated, on each new inbound turn; `stop` cancels it in place.
#[derive(Clone, Copy, Debug, PartialEq, Eq, Structural)]
pub struct CancellationToken {
    pub cancelled: bool,
}

impl CancellationToken {
    /// A fresh token: not cancelled.
    pub fn new() -> (r: CancellationToken)
        ensures
            !r.cancelled,
    {
        CancellationToken { cancelled: false }
    }

    /// Cancels the token.
    pub fn cancel(&mut self)
        ensures
            final(self).cancelled,
    {
        self.cancelled = true;
    }

    /// Whether the token reports cancelled.
    pub fn is_cancelled(&self) -> (r: bool)
        ensures
            r == self.cancelled,
    {
        self.cancelled
    }
}

/// A message a tool can send to its running session.
#[derive(Debug)]
pub enum SessionMessage {
    /// Replace the active agent.
    SwapAgent(RunningAgent),
}

/// The immutable identity of a session.
#[derive(Debug)]
pub struct Session {
    pub session_id: u128,
    pub repository: Repository,
    pub initial_query: String,
}

impl Session {
    /// Starts describing a session.
    pub fn builder() -> (r: SessionBuilder)
        ensures
            r.session_id is None,
            r.repository is None,
            r.initial_query is None,
    {
        SessionBuilder { session_id: None, repository: None, initial_query: None }
    }
}

/// Collects the pieces of a [`Session`] before it starts.
#[derive(Debug)]
pub struct SessionBuilder {
    pub session_id: Option<u128>,
    pub repository: Option<Repository>,
    pub initial_query: Option<String>,
}

/// Why a session could not be started.
#[derive(Debug)]
pub enum SessionError {
    /// The builder was missing a field.
    BuilderIncomplete,
    /// One of the concurrent setup steps failed; the message names it.
    PrereqFailed(String),
    /// Workspace setup failed.
    SetupFailed(SetupError),
    /// The agent could not be built.
    AgentBuildFailed(String),
}

/// The outcomes of the outside steps of session creation: the four
/// concurrent steps, the GitHub session if one is configured, and the agent
/// build.  The executor comes with the script of outcomes its commands will
/// get.
#[derive(Debug)]
pub struct SessionPrereqs {
    /// The chat title proposed by the cheap model call.
    pub chat_title: Result<String, String>,
    /// The started tool executor, or why it did not start.
    pub executor_start: Result<ScriptedExecutor, String>,
    /// The branch name proposed for the query.
    pub branch_proposal: Result<String, String>,
    /// The fetched context for the initial query.
    pub initial_context: Result<String, String>,
    /// The GitHub session, when one is configured.
    pub github: Option<GithubSession>,
    /// Whether the agent topology could be built.
    pub agent_build: Result<(), String>,
}

/// True when all four concurrent setup steps succeeded.
pub open spec fn prereqs_ok(p: SessionPrereqs) -> bool {
    p.chat_title is Ok && p.executor_start is Ok && p.branch_proposal is Ok && p.initial_context
        is Ok
}

/// True when the whole of session creation succeeds: every concurrent step,
/// then workspace setup over the executor's script, then the agent build.
pub open spec fn session_start_succeeds(config: crate::config::Config, p: SessionPrereqs) -> bool {
    &&& prereqs_ok(p)
    &&& match p.executor_start {
        Ok(ex) => setup_succeeds(config, p.github, ex),
        Err(_) => false,
    }
    &&& p.agent_build is Ok
}

/// True when the session's executor was told to create the work branch
/// derived from the proposed name and the session id.
pub open spec fn session_work_branch_issued(s: RunningSession, proposal: Seq<char>, id: u128) -> bool {
    exists|k: int|
        0 <= k < s.executor.issued@.len() && crate::executor::is_shell(
            #[trigger] s.executor.issued@[k],
            crate::agent::git_agent_environment::work_branch_cmd(
                crate::agent::util::branch_name_spec(proposal, id),
            ),
        )
}

/// A live session: the swappable active agent, the executor handle, the
/// frozen workspace snapshot and the current cancellation token.
#[derive(Debug)]
pub struct RunningSession {
    pub session: Session,
    pub active_agent: RunningAgent,
    pub executor: ScriptedExecutor,
    pub agent_environment: GitAgentEnvironment,
    pub cancel_token: CancellationToken,
}

/// Everything of two sessions but their tokens and their identity is the
/// same: used to say a registry hit returns the session unchanged.
pub open spec fn same_session_core(a: RunningSession, b: RunningSession) -> bool {
    &&& a.session.session_id == b.session.session_id
    &&& a.session.initial_query@ == b.session.initial_query@
    &&& a.active_agent.ops@ == b.active_agent.ops@
    &&& a.active_agent.stopped == b.active_agent.stopped
    &&& a.agent_environment.branch_name@ == b.agent_environment.branch_name@
    &&& a.agent_environment.start_ref@ == b.agent_environment.start_ref@
    &&& a.agent_environment.remote_enabled == b.agent_environment.remote_enabled
    &&& a.executor.cursor == b.executor.cursor
    &&& a.executor.issued@ == b.executor.issued@
    &&& a.executor.responses@ == b.executor.responses@
}

/// How a raced turn ends: the outside half of the race, handed in.
#[derive(Debug)]
pub enum TurnOutcome {
    /// The cancellation token won the race.
    CancelledFirst,
    /// The agent call finished first, with this result.
    Finished(Result<(), String>),
}

/// How a raced turn resolved.
#[derive(Debug)]
pub enum TurnResult {
    /// The turn was abandoned through the cancellation token.
    Cancelled,
    /// The agent finished the turn.
    Done,
    /// The agent failed the turn; the message says how.
    Failed(String),
}

impl SessionBuilder {
    pub fn session_id(&mut self, id: u128)
        ensures
            final(self).session_id == Some(id),
            final(self).repository == old(self).repository,
            final(self).initial_query == old(self).initial_query,
    {
        self.session_id = Some(id);
    }

    pub fn repository(&mut self, repository: Repository)
        ensures
            final(self).repository == Some(repository),
            final(self).session_id == old(self).session_id,
            final(self).initial_query == old(self).initial_query,
    {
        self.repository = Some(repository);
    }

    pub fn initial_query(&mut self, query: &str)
        ensures
            final(self).initial_query matches Some(q) && q@ == query@,
            final(self).session_id == old(self).session_id,
            final(self).repository == old(self).repository,
    {
        self.initial_query = Some(text::copy_str(query));
    }

    /// Starts the session from the given outside outcomes.  Creation is
    /// all-or-nothing: a failure of any step yields an error and no session.
    pub fn start(self, prereqs: SessionPrereqs) -> (r: Result<RunningSession, SessionError>)
        ensures
            (r is Ok) <==> (self.session_id is Some && self.repository is Some
                && self.initial_query is Some && (match self.repository {
                Some(repo) => session_start_succeeds(repo.config, prereqs),
                None => false,
            })),
            r matches Ok(s) ==> {
                &&& self.session_id matches Some(id) && s.session.session_id == id
                    && s.agent_environment.branch_name@ == (match prereqs.executor_start {
                    Ok(ex) => {
                        let c = s.executor.cursor - ex.cursor;
                        crate::text::trim_spec(crate::executor::out_at(ex, c - 2))
                    },
                    Err(_) => Seq::empty(),
                })
                &&& self.initial_query matches Some(q) && s.session.initial_query@ == q@
                &&& !s.cancel_token.cancelled
                &&& s.active_agent.ops@.len() == 0
                &&& !s.active_agent.stopped
                &&& (match (self.repository, prereqs.executor_start) {
                    (Some(repo), Ok(ex)) => s.agent_environment.remote_enabled
                        == remote_enabled_spec(repo.config, prereqs.github, ex),
                    _ => false,
                })
                &&& (match (self.repository, self.session_id, prereqs.branch_proposal) {
                    (Some(repo), Some(id), Ok(proposal)) => !(repo.config.tool_executor is Local)
                        ==> session_work_branch_issued(s, proposal@, id),
                    _ => false,
                })
            },
    {
        let SessionBuilder { session_id, repository, initial_query } = self;
        let session_id = match session_id {
            Some(v) => v,
            None => {
                return Err(SessionError::BuilderIncomplete);
            },
        };
        let repository = match repository {
            Some(v) => v,
            None => {
                return Err(SessionError::BuilderIncomplete);
            },
        };
        let initial_query = match initial_query {
            Some(v) => v,
            None => {
                return Err(SessionError::BuilderIncomplete);
            },
        };
        let SessionPrereqs {
            chat_title,
            executor_start,
            branch_proposal,
            initial_context,
            github,
            agent_build,
        } = prereqs;
        if let Err(e) = chat_title {
            return Err(SessionError::PrereqFailed(e));
        }
        let mut executor = match executor_start {
            Ok(ex) => ex,
            Err(e) => {
                return Err(SessionError::PrereqFailed(e));
            },
        };
        let branch_proposal = match branch_proposal {
            Ok(b) => b,
            Err(e) => {
                return Err(SessionError::PrereqFailed(e));
            },
        };
        if let Err(e) = initial_context {
            return Err(SessionError::PrereqFailed(e));
        }
        let branch_name = crate::agent::util::create_branch_name(
            branch_proposal.as_str(),
            session_id,
        );
        let ghost pre_issued_len = executor.issued@.len();
        let agent_environment = match GitAgentEnvironment::setup(
            &repository,
            github.as_ref(),
            &mut executor,
            branch_name.as_str(),
        ) {
            Ok(env) => env,
            Err(e) => {
                return Err(SessionError::SetupFailed(e));
            },
        };
        if let Err(e) = agent_build {
            return Err(SessionError::AgentBuildFailed(e));
        }
        let session = Session { session_id, repository, initial_query };
        let running = RunningSession {
            session,
            active_agent: RunningAgent::new(),
            executor,
            agent_environment,
            cancel_token: CancellationToken::new(),
        };
        proof {
            if !(running.session.repository.config.tool_executor is Local) {
                let k = choose|k: int|
                    pre_issued_len <= k < running.executor.issued@.len()
                        && crate::executor::is_shell(
                        #[trigger] running.executor.issued@[k],
                        crate::agent::git_agent_environment::work_branch_cmd(branch_name@),
                    );
                assert(crate::executor::is_shell(
                    running.executor.issued@[k],
                    crate::agent::git_agent_environment::work_branch_cmd(
                        crate::agent::util::branch_name_spec(branch_proposal@, session_id),
                    ),
                ));
                assert(session_work_branch_issued(running, branch_proposal@, session_id));
            }
        }
        Ok(running)
    }
}

impl RunningSession {
    /// The active agent.
    pub fn active_agent(&self) -> (r: &RunningAgent)
        ensures
            r == self.active_agent,
    {
        &self.active_agent
    }

    /// The frozen workspace snapshot.
    pub fn agent_environment(&self) -> (r: &GitAgentEnvironment)
        ensures
            r == self.agent_environment,
    {
        &self.agent_environment
    }

    /// The current cancellation token.
    pub fn cancel_token(&self) -> (r: CancellationToken)
        ensures
            r == self.cancel_token,
    {
        self.cancel_token
    }

    /// Replaces the token with a fresh one.
    pub fn reset_cancel_token(&mut self)
        ensures
            !final(self).cancel_token.cancelled,
            same_session_core(*final(self), *old(self)),
            final(self).session == old(self).session,
            final(self).executor == old(self).executor,
            final(self).agent_environment == old(self).agent_environment,
            final(self).active_agent.ops@ == old(self).active_agent.ops@,
            final(self).active_agent.stopped == old(self).active_agent.stopped,
    {
        self.cancel_token = CancellationToken::new();
    }

    /// Replaces the active agent; the swap is whole, never partial, and
    /// touches nothing else of the session.
    pub fn swap_agent(&mut self, running_agent: RunningAgent)
        ensures
            final(self).active_agent == running_agent,
            final(self).cancel_token == old(self).cancel_token,
            final(self).session == old(self).session,
            final(self).executor == old(self).executor,
            final(self).agent_environment == old(self).agent_environment,
    {
        self.active_agent = running_agent;
    }

    /// Applies a session message.
    pub fn apply_message(&mut self, message: SessionMessage)
        ensures
            message matches SessionMessage::SwapAgent(a) ==> final(self).active_agent == a
                && final(self).cancel_token == old(self).cancel_token && final(self).session
                == old(self).session && final(self).executor == old(self).executor && final(self).agent_environment == old(self).agent_environment,
    {
        match message {
            SessionMessage::SwapAgent(agent) => self.swap_agent(agent),
        }
    }

    /// Runs a query turn raced against the token.  A token already
    /// cancelled abandons the turn before the query reaches the agent; an
    /// uncancelled token delivers the query and lets the race decide.
    pub fn query_agent(&mut self, query: &str, outcome: &TurnOutcome) -> (r: TurnResult)
        ensures
            final(self).cancel_token == old(self).cancel_token,
            final(self).session == old(self).session,
            final(self).executor == old(self).executor,
            final(self).agent_environment == old(self).agent_environment,
            final(self).active_agent.stopped == old(self).active_agent.stopped,
            old(self).cancel_token.cancelled ==> (r is Cancelled) && final(self).active_agent.ops@
                == old(self).active_agent.ops@,
            !old(self).cancel_token.cancelled ==> {
                &&& final(self).active_agent.ops@.len() == old(self).active_agent.ops@.len() + 1
                &&& final(self).active_agent.ops@.last() matches AgentOp::Query(q) && q@ == query@
                &&& final(self).active_agent.ops@.subrange(
                    0,
                    old(self).active_agent.ops@.len() as int,
                ) == old(self).active_agent.ops@
                &&& (match outcome {
                    TurnOutcome::CancelledFirst => r is Cancelled,
                    TurnOutcome::Finished(Ok(())) => r is Done,
                    TurnOutcome::Finished(Err(e)) => r matches TurnResult::Failed(m) && m@ == e@,
                })
            },
    {
        if self.cancel_token.is_cancelled() {
            return TurnResult::Cancelled;
        }
        self.active_agent.query(query);
        match outcome {
            TurnOutcome::CancelledFirst => TurnResult::Cancelled,
            TurnOutcome::Finished(Ok(())) => TurnResult::Done,
            TurnOutcome::Finished(Err(e)) => TurnResult::Failed(text::copy_str(e.as_str())),
        }
    }

    /// Runs a continuation turn raced against the token, as
    /// [`Self::query_agent`] does for a query turn.
    pub fn run_agent(&mut self, outcome: &TurnOutcome) -> (r: TurnResult)
        ensures
            final(self).cancel_token == old(self).cancel_token,
            final(self).session == old(self).session,
            final(self).executor == old(self).executor,
            final(self).agent_environment == old(self).agent_environment,
            final(self).active_agent.stopped == old(self).active_agent.stopped,
            old(self).cancel_token.cancelled ==> (r is Cancelled) && final(self).active_agent.ops@
                == old(self).active_agent.ops@,
            !old(self).cancel_token.cancelled ==> {
                &&& final(self).active_agent.ops@ == old(self).active_agent.ops@.push(AgentOp::Run)
                &&& (match outcome {
                    TurnOutcome::CancelledFirst => r is Cancelled,
                    TurnOutcome::Finished(Ok(())) => r is Done,
                    TurnOutcome::Finished(Err(e)) => r matches TurnResult::Failed(m) && m@ == e@,
                })
            },
    {
        if self.cancel_token.is_cancelled() {
            return TurnResult::Cancelled;
        }
        self.active_agent.run();
        match outcome {
            TurnOutcome::CancelledFirst => TurnResult::Cancelled,
            TurnOutcome::Finished(Ok(())) => TurnResult::Done,
            TurnOutcome::Finished(Err(e)) => TurnResult::Failed(text::copy_str(e.as_str())),
        }
    }

    /// Stops the session: cancels the token and signals the agent's own
    /// stop primitive.  Idempotent: stopping a stopped session changes
    /// nothing but leaves the token cancelled.
    pub fn stop(&mut self)
        ensures
            final(self).cancel_token.cancelled,
            final(self).active_agent.stopped,
            final(self).session == old(self).session,
            final(self).executor == old(self).executor,
            final(self).agent_environment == old(self).agent_environment,
            old(self).active_agent.stopped ==> final(self).active_agent.ops@ == old(self).active_agent.ops@,
            !old(self).active_agent.stopped ==> final(self).active_agent.ops@ == old(self).active_agent.ops@.push(AgentOp::Stop),
    {
        self.cancel_token.cancel();
        self.active_agent.stop();
    }
}

/// True when some name in `names` equals `wanted`.
pub open spec fn names_contain(names: Seq<Seq<char>>, wanted: Seq<char>) -> bool {
    exists|j: int| 0 <= j < names.len() && names[j] == wanted
}

/// The built-in tools a session offers before the user's disabled list is
/// applied: the core tools, the edit-mode tools, and one tool per
/// configured integration.
pub open spec fn base_tool_names(config: crate::config::Config, has_env: bool) -> Seq<Seq<char>> {
    seq![
        "write_file"@,
        "search_file"@,
        "git"@,
        "shell_command"@,
        "search_code"@,
        "fetch_url"@,
        "explain_code"@,
    ] + (match config.agent_edit_mode {
        crate::config::AgentEditMode::Whole => seq!["write_file"@, "read_file"@],
        crate::config::AgentEditMode::Line => seq![
            "read_file_with_line_numbers"@,
            "replace_lines"@,
            "add_lines"@,
        ],
        crate::config::AgentEditMode::Patch => seq![
            "read_file_with_line_numbers"@,
            "patch_file"@,
        ],
    }) + (if config.github_token is Some {
        seq!["create_or_update_pull_request"@, "github_search_code"@]
    } else {
        Seq::<Seq<char>>::empty()
    }) + (if config.tavily_api_key is Some {
        seq!["search_web"@]
    } else {
        Seq::<Seq<char>>::empty()
    }) + (if config.commands.test@.len() > 0 {
        seq!["run_tests"@]
    } else {
        Seq::<Seq<char>>::empty()
    }) + (if config.commands.coverage@.len() > 0 {
        seq!["run_coverage"@]
    } else {
        Seq::<Seq<char>>::empty()
    }) + (if has_env {
        seq!["reset_file"@]
    } else {
        Seq::<Seq<char>>::empty()
    })
}

/// `names` with every disabled name removed, in order.
pub open spec fn without_disabled(names: Seq<Seq<char>>, disabled: Seq<Seq<char>>) -> Seq<
    Seq<char>,
>
    decreases names.len(),
{
    if names.len() == 0 {
        seq![]
    } else {
        without_disabled(names.subrange(0, names.len() - 1), disabled) + (if !names_contain(
            disabled,
            names[names.len() - 1],
        ) {
            seq![names[names.len() - 1]]
        } else {
            seq![]
        })
    }
}

fn name_listed(names: &Vec<String>, wanted: &str) -> (r: bool)
    ensures
        r == names_contain(names@.map_values(|s: String| s@), wanted@),
{
    let mut j: usize = 0;
    while j < names.len()
        invariant
            j <= names@.len(),
            forall|k: int| 0 <= k < j ==> (#[trigger] names@[k])@ != wanted@,
        decreases names@.len() - j,
    {
        if text::str_eq(names[j].as_str(), wanted) {
            assert(names@.map_values(|s: String| s@)[j as int] == wanted@);
            return true;
        }
        j += 1;
    }
    proof {
        let nvs = names@.map_values(|s: String| s@);
        assert forall|k: int| 0 <= k < nvs.len() implies nvs[k] != wanted@ by {
            assert(nvs[k] == names@[k]@);
        }
    }
    false
}

/// The names of the built-in tools a session offers: the base set for the
/// configuration, minus whatever the user disabled.  Building the tools
/// themselves is outside work; which ones exist is decided here.
#[verifier::rlimit(80)]
pub fn available_builtin_tools(
    repository: &Repository,
    agent_env: Option<&GitAgentEnvironment>,
) -> (r: Vec<String>)
    ensures
        r@.map_values(|s: String| s@) == without_disabled(
            base_tool_names(repository.config, agent_env is Some),
            repository.config.disabled_tools@.map_values(|s: String| s@),
        ),
{
    let config = repository.config();
    let ghost has_env = agent_env is Some;
    let mut base: Vec<String> = Vec::new();
    base.push(String::from_str("write_file"));
    base.push(String::from_str("search_file"));
    base.push(String::from_str("git"));
    base.push(String::from_str("shell_command"));
    base.push(String::from_str("search_code"));
    base.push(String::from_str("fetch_url"));
    base.push(String::from_str("explain_code"));
    let ghost core = seq![
        "write_file"@,
        "search_file"@,
        "git"@,
        "shell_command"@,
        "search_code"@,
        "fetch_url"@,
        "explain_code"@,
    ];
    proof {
        assert(base@.map_values(|s: String| s@) =~= core);
    }
    match config.agent_edit_mode {
        crate::config::AgentEditMode::Whole => {
            base.push(String::from_str("write_file"));
            base.push(String::from_str("read_file"));
        },
        crate::config::AgentEditMode::Line => {
            base.push(String::from_str("read_file_with_line_numbers"));
            base.push(String::from_str("replace_lines"));
            base.push(String::from_str("add_lines"));
        },
        crate::config::AgentEditMode::Patch => {
            base.push(String::from_str("read_file_with_line_numbers"));
            base.push(String::from_str("patch_file"));
        },
    }
    let ghost with_edit = core + (match repository.config.agent_edit_mode {
        crate::config::AgentEditMode::Whole => seq!["write_file"@, "read_file"@],
        crate::config::AgentEditMode::Line => seq![
            "read_file_with_line_numbers"@,
            "replace_lines"@,
            "add_lines"@,
        ],
        crate::config::AgentEditMode::Patch => seq![
            "read_file_with_line_numbers"@,
            "patch_file"@,
        ],
    });
    proof {
        assert(base@.map_values(|s: String| s@) =~= with_edit);
    }
    if config.github_token.is_some() {
        base.push(String::from_str("create_or_update_pull_request"));
        base.push(String::from_str("github_search_code"));
    }
    if config.tavily_api_key.is_some() {
        base.push(String::from_str("search_web"));
    }
    let ghost with_integrations = with_edit + (if repository.config.github_token is Some {
        seq!["create_or_update_pull_request"@, "github_search_code"@]
    } else {
        Seq::<Seq<char>>::empty()
    }) + (if repository.config.tavily_api_key is Some {
        seq!["search_web"@]
    } else {
        Seq::<Seq<char>>::empty()
    });
    proof {
        assert(base@.map_values(|s: String| s@) =~= with_integrations);
    }
    if config.commands.test.as_str().unicode_len() > 0 {
        base.push(String::from_str("run_tests"));
    }
    if config.commands.coverage.as_str().unicode_len() > 0 {
        base.push(String::from_str("run_coverage"));
    }
    if agent_env.is_some() {
        base.push(String::from_str("reset_file"));
    }
    let ghost base_names = base_tool_names(repository.config, agent_env is Some);
    proof {
        assert(base@.map_values(|s: String| s@) =~= with_integrations + (
        if repository.config.commands.test@.len() > 0 {
            seq!["run_tests"@]
        } else {
            Seq::<Seq<char>>::empty()
        }) + (if repository.config.commands.coverage@.len() > 0 {
            seq!["run_coverage"@]
        } else {
            Seq::<Seq<char>>::empty()
        }) + (if has_env {
            seq!["reset_file"@]
        } else {
            Seq::<Seq<char>>::empty()
        }));
        assert(base@.map_values(|s: String| s@) =~= base_names);
    }
    let mut out: Vec<String> = Vec::new();
    let mut i: usize = 0;
    proof {
        assert(base_names.subrange(0, 0) =~= Seq::<Seq<char>>::empty());
        assert(out@.map_values(|s: String| s@) =~= without_disabled(
            base_names.subrange(0, 0),
            config.disabled_tools@.map_values(|s: String| s@),
        ));
    }
    while i < base.len()
        invariant
            base@.map_values(|s: String| s@) == base_names,
            i <= base@.len(),
            out@.map_values(|s: String| s@) == without_disabled(
                base_names.subrange(0, i as int),
                repository.config.disabled_tools@.map_values(|s: String| s@),
            ),
        decreases base@.len() - i,
    {
        let ghost pre = base_names.subrange(0, i as int);
        let ghost post = base_names.subrange(0, i + 1 as int);
        proof {
            assert(post.subrange(0, post.len() - 1) =~= pre);
            assert(post[post.len() - 1] == base_names[i as int]);
            assert(base_names[i as int] == base@[i as int]@);
        }
        if !name_listed(&repository.config().disabled_tools, base[i].as_str()) {
            let ghost prev = out@.map_values(|s: String| s@);
            out.push(base[i].clone());
            proof {
                assert(out@.map_values(|s: String| s@) =~= prev.push(base_names[i as int]));
            }
        }
        i += 1;
    }
    proof {
        assert(base_names.subrange(0, base_names.len() as int) =~= base_names);
    }
    out
}

/// True for a tool the delegating agent must not carry itself.
pub open spec fn is_delegate_blacklisted(n: Seq<char>) -> bool {
    n == "write_file"@ || n == "shell_command"@ || n == "replace_lines"@ || n == "add_lines"@
}

/// `names` with the blacklisted tools removed, in order.
pub open spec fn without_blacklisted(names: Seq<Seq<char>>) -> Seq<Seq<char>>
    decreases names.len(),
{
    if names.len() == 0 {
        seq![]
    } else {
        without_blacklisted(names.subrange(0, names.len() - 1)) + (if !is_delegate_blacklisted(
            names[names.len() - 1],
        ) {
            seq![names[names.len() - 1]]
        } else {
            seq![]
        })
    }
}

/// The tools of the delegating agent in a planner topology: the available
/// tools minus those that edit directly, plus the delegate tool.
pub fn delegate_tool_names(available: &Vec<String>) -> (r: Vec<String>)
    ensures
        r@.map_values(|s: String| s@) == without_blacklisted(
            available@.map_values(|s: String| s@),
        ).push("delegate_coding_agent"@),
{
    let ghost avs = available@.map_values(|s: String| s@);
    let mut out: Vec<String> = Vec::new();
    let mut i: usize = 0;
    proof {
        assert(avs.subrange(0, 0) =~= Seq::<Seq<char>>::empty());
        assert(out@.map_values(|s: String| s@) =~= without_blacklisted(avs.subrange(0, 0)));
    }
    while i < available.len()
        invariant
            avs == available@.map_values(|s: String| s@),
            i <= available@.len(),
            out@.map_values(|s: String| s@) == without_blacklisted(avs.subrange(0, i as int)),
        decreases available@.len() - i,
    {
        let ghost pre = avs.subrange(0, i as int);
        let ghost post = avs.subrange(0, i + 1 as int);
        proof {
            assert(post.subrange(0, post.len() - 1) =~= pre);
            assert(post[post.len() - 1] == avs[i as int]);
            assert(avs[i as int] == available@[i as int]@);
        }
        let name = &available[i];
        let blacklisted = text::str_eq(name.as_str(), "write_file") || text::str_eq(
            name.as_str(),
            "shell_command",
        ) || text::str_eq(name.as_str(), "replace_lines") || text::str_eq(
            name.as_str(),
            "add_lines",
        );
        if !blacklisted {
            let ghost prev = out@.map_values(|s: String| s@);
            out.push(name.clone());
            proof {
                assert(out@.map_values(|s: String| s@) =~= prev.push(avs[i as int]));
            }
        }
        i += 1;
    }
    let ghost prev = out@.map_values(|s: String| s@);
    out.push(String::from_str("delegate_coding_agent"));
    proof {
        assert(avs.subrange(0, avs.len() as int) =~= avs);
        assert(out@.map_values(|s: String| s@) =~= prev.push("delegate_coding_agent"@));
    }
    out
}

} // verus!
