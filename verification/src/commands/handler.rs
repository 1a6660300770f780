//! The command dispatcher: finds or starts the session a command is for,
//! executes it, and reports completion or failure through the event's
//! responder.
//!
//! Commands for different uuids are independent; `Quit` drains the loop.
//! Everything the environment decides — the outcomes of the concurrent
//! session-setup steps, and which side of a race finishes first — comes in
//! as an [`EventScript`], so the dispatch logic itself is deterministic and
//! verified for every possible environment.

use vstd::prelude::*;

use crate::agent::running_agent::AgentOp;
use crate::agent::session::RunningSession;
use crate::agent::session::Session;
use crate::agent::session::SessionPrereqs;
use crate::agent::session::SessionError;
use crate::agent::session::TurnOutcome;
use crate::agent::session::TurnResult;
use crate::agent::session::same_session_core;
use crate::agent::session::session_start_succeeds;
use crate::commands::command::Command;
use crate::commands::command::CommandEvent;
use crate::commands::command::command_name;
use crate::commands::responder::Responder;
use crate::commands::responder::Response;
use crate::commands::responder::completed_count;
use crate::commands::responder::is_system_message;
use crate::commands::responder::lemma_count_push_completed;
use crate::commands::responder::lemma_count_push_other;
use crate::executor::CommandError;
use crate::executor::CommandOutput;
use crate::executor::ExecCommand;
use crate::executor::ScriptedExecutor;
use crate::indexing::DuckdbIndex;

verus! {

/// Why handling a command failed; the dispatcher reports it and goes on.
#[derive(Debug)]
pub enum HandlerError {
    /// The named command needs a repository and the event carried none.
    ExpectsRepository(String),
    /// Session creation failed.
    Session(SessionError),
    /// The agent failed the turn; the message says how.
    AgentFailed(String),
    /// A workspace command could not be run at all.
    ExecFailed(String),
    /// Re-indexing failed.
    IndexFailed(String),
    /// Redriving the conversation failed.
    RedriveFailed(String),
    /// Handing feedback to the agent failed.
    FeedbackFailed(String),
}

/// What the environment answers during one event: the outcomes of session
/// creation, the raced turn, and the outside calls the command makes.
#[derive(Debug)]
pub struct EventScript {
    /// Outcomes of the session-creation steps, used when the event has to
    /// start a session.
    pub prereqs: SessionPrereqs,
    /// Which side of the turn race finishes first, and how.
    pub turn: TurnOutcome,
    /// The outcome of re-indexing the repository.
    pub index_result: Result<(), String>,
    /// The outcome of redriving the conversation for a retry.
    pub redrive: Result<(), String>,
    /// The outcome of handing feedback back to the agent.
    pub feedback: Result<(), String>,
    /// How many seconds the environment measured for the command, for the
    /// closing note.
    pub elapsed_seconds: usize,
}

/// First index of the session for `uuid`; `-1` when absent.
pub open spec fn position_of(sessions: Seq<RunningSession>, uuid: u128) -> int
    decreases sessions.len(),
{
    if sessions.len() == 0 {
        -1
    } else if sessions[0].session.session_id == uuid {
        0
    } else {
        let r = position_of(sessions.drop_first(), uuid);
        if r < 0 {
            -1
        } else {
            r + 1
        }
    }
}

proof fn lemma_position_of_at(sessions: Seq<RunningSession>, uuid: u128, k: int)
    requires
        0 <= k <= sessions.len(),
        forall|j: int| 0 <= j < k ==> sessions[j].session.session_id != uuid,
        k == sessions.len() || sessions[k].session.session_id == uuid,
    ensures
        position_of(sessions, uuid) == if k == sessions.len() {
            -1int
        } else {
            k
        },
    decreases k,
{
    if sessions.len() > 0 && k > 0 {
        lemma_position_of_at(sessions.drop_first(), uuid, k - 1);
    }
}

/// At most one session per uuid.
pub open spec fn registry_wf(sessions: Seq<RunningSession>) -> bool {
    forall|i: int, j: int|
        0 <= i < j < sessions.len() ==> sessions[i].session.session_id
            != sessions[j].session.session_id
}

/// All entries but the one at `pos` are the same.
pub open spec fn others_same(a: Seq<RunningSession>, b: Seq<RunningSession>, pos: int) -> bool {
    a.len() == b.len() && forall|j: int| 0 <= j < a.len() && j != pos ==> a[j] == b[j]
}

/// The hit transition of `find_or_start`: the session for `uuid` keeps its
/// whole state but gets a fresh, uncancelled token; nothing else changes.
pub open spec fn reset_hit_rel(pre: Seq<RunningSession>, post: Seq<RunningSession>, uuid: u128) -> bool {
    let pos = position_of(pre, uuid);
    &&& pos >= 0
    &&& others_same(post, pre, pos)
    &&& same_session_core(post[pos], pre[pos])
    &&& post[pos].session.session_id == pre[pos].session.session_id
    &&& !post[pos].cancel_token.cancelled
}

/// The stopping transition of `stop_agent` on a live session: its token is
/// cancelled and its agent told to stop; nothing else changes.
pub open spec fn stopped_rel(pre: Seq<RunningSession>, post: Seq<RunningSession>, uuid: u128) -> bool {
    let pos = position_of(pre, uuid);
    &&& pos >= 0
    &&& others_same(post, pre, pos)
    &&& post[pos].session.session_id == pre[pos].session.session_id
    &&& post[pos].cancel_token.cancelled
    &&& post[pos].active_agent.stopped
}

proof fn lemma_position_stable(pre: Seq<RunningSession>, post: Seq<RunningSession>, uuid: u128)
    requires
        position_of(pre, uuid) >= 0,
        post.len() == pre.len(),
        forall|j: int| 0 <= j < pre.len() ==> post[j].session.session_id
            == pre[j].session.session_id,
    ensures
        position_of(post, uuid) == position_of(pre, uuid),
    decreases pre.len(),
{
    if pre.len() > 0 {
        if pre[0].session.session_id != uuid {
            lemma_position_stable(pre.drop_first(), post.drop_first(), uuid);
        }
    }
}

/// For every uuid: `find_or_start` called twice without an intervening stop
/// hands back the same running session — the second call returns the entry
/// unchanged in everything but its token.
pub proof fn lemma_find_or_start_twice(
    r0: Seq<RunningSession>,
    r1: Seq<RunningSession>,
    r2: Seq<RunningSession>,
    uuid: u128,
)
    requires
        position_of(r0, uuid) >= 0,
        reset_hit_rel(r0, r1, uuid),
        reset_hit_rel(r1, r2, uuid),
    ensures
        position_of(r1, uuid) == position_of(r0, uuid),
        position_of(r2, uuid) == position_of(r0, uuid),
        same_session_core(r2[position_of(r0, uuid)], r1[position_of(r0, uuid)]),
        same_session_core(r2[position_of(r0, uuid)], r0[position_of(r0, uuid)]),
{
    let pos = position_of(r0, uuid);
    assert(forall|j: int| 0 <= j < r0.len() ==> r1[j].session.session_id
        == r0[j].session.session_id) by {
        assert(forall|j: int| 0 <= j < r0.len() && j != pos ==> r1[j] == r0[j]);
    }
    lemma_position_stable(r0, r1, uuid);
    assert(forall|j: int| 0 <= j < r1.len() ==> r2[j].session.session_id
        == r1[j].session.session_id) by {
        assert(forall|j: int| 0 <= j < r1.len() && j != pos ==> r2[j] == r1[j]);
    }
    lemma_position_stable(r1, r2, uuid);
}

/// After `stop` the token reports cancelled; a subsequent `find_or_start`
/// clears it back to not-cancelled, leaving the session's state otherwise
/// as the stop left it.
pub proof fn lemma_stop_then_restart_clears_token(
    r0: Seq<RunningSession>,
    r1: Seq<RunningSession>,
    r2: Seq<RunningSession>,
    uuid: u128,
)
    requires
        position_of(r0, uuid) >= 0,
        stopped_rel(r0, r1, uuid),
        reset_hit_rel(r1, r2, uuid),
    ensures
        r1[position_of(r0, uuid)].cancel_token.cancelled,
        position_of(r1, uuid) == position_of(r0, uuid),
        !r2[position_of(r0, uuid)].cancel_token.cancelled,
        same_session_core(r2[position_of(r0, uuid)], r1[position_of(r0, uuid)]),
{
    let pos = position_of(r0, uuid);
    assert(forall|j: int| 0 <= j < r0.len() ==> r1[j].session.session_id
        == r0[j].session.session_id) by {
        assert(forall|j: int| 0 <= j < r0.len() && j != pos ==> r1[j] == r0[j]);
    }
    lemma_position_stable(r0, r1, uuid);
    assert(forall|j: int| 0 <= j < r1.len() ==> r2[j].session.session_id
        == r1[j].session.session_id) by {
        assert(forall|j: int| 0 <= j < r1.len() && j != pos ==> r2[j] == r1[j]);
    }
    lemma_position_stable(r1, r2, uuid);
}

/// The message every successfully handled command ends with: its name and
/// the measured duration the environment reported.
pub open spec fn success_message(c: Command, secs: int) -> Seq<char> {
    "Command "@ + command_name(c) + " successful in "@ + crate::text::dec_str_spec(secs)
        + " seconds"@
}

/// The message for a command whose session does not exist yet.
pub open spec fn no_agent_message() -> Seq<char> {
    "No agent found (yet), is it starting up?"@
}

/// Commands always flow through the `CommandHandler`: it owns the session
/// registry and is the single entry point of the backend.
#[derive(Debug)]
pub struct CommandHandler {
    /// One running session per uuid.
    pub agent_sessions: Vec<RunningSession>,
    /// The index used for `IndexRepository` and session context.
    pub index: DuckdbIndex,
}

impl CommandHandler {
    /// A handler with no sessions yet.
    pub fn from_index(index: DuckdbIndex) -> (r: CommandHandler)
        ensures
            r.agent_sessions@.len() == 0,
    {
        CommandHandler { agent_sessions: Vec::new(), index }
    }

    /// Looks a session up by uuid.
    pub fn find_agent_by_uuid(&self, uuid: u128) -> (r: Option<usize>)
        ensures
            r matches Some(i) ==> position_of(self.agent_sessions@, uuid) == i && i
                < self.agent_sessions@.len(),
            r is None ==> position_of(self.agent_sessions@, uuid) < 0,
    {
        let mut i: usize = 0;
        while i < self.agent_sessions.len()
            invariant
                i <= self.agent_sessions@.len(),
                forall|j: int| 0 <= j < i ==> self.agent_sessions@[j].session.session_id != uuid,
            decreases self.agent_sessions@.len() - i,
        {
            if self.agent_sessions[i].session.session_id == uuid {
                proof {
                    lemma_position_of_at(self.agent_sessions@, uuid, i as int);
                }
                return Some(i);
            }
            i += 1;
        }
        proof {
            lemma_position_of_at(self.agent_sessions@, uuid, self.agent_sessions@.len() as int);
        }
        None
    }

    /// Finds the session for `uuid`, or starts one.
    ///
    /// A hit replaces the session's token with a fresh one — a stale
    /// cancellation never leaks into the new turn — and returns the entry
    /// otherwise unchanged.  A miss needs a repository and runs session
    /// creation from the scripted outcomes; on failure no session is
    /// registered at all.
    pub fn find_or_start_agent_by_uuid(
        &mut self,
        uuid: u128,
        repository: Option<&Repository>,
        message: &str,
        responder: &mut Responder,
        prereqs: SessionPrereqs,
    ) -> (r: Result<usize, HandlerError>)
        requires
            registry_wf(old(self).agent_sessions@),
        ensures
            registry_wf(final(self).agent_sessions@),
            r matches Ok(i) ==> i < final(self).agent_sessions@.len(),
            final(responder).sent@.len() >= old(responder).sent@.len(),
            final(responder).sent@.subrange(0, old(responder).sent@.len() as int) == old(responder).sent@,
            // everything sent here is an activity or rename note, never a
            // backend message or a completion marker
            forall|j: int|
                old(responder).sent@.len() <= j < final(responder).sent@.len() ==> ((
                #[trigger] final(responder).sent@[j]) is Activity || final(responder).sent@[j]
                    is RenameChat || final(responder).sent@[j] is RenameBranch),
            completed_count(final(responder).sent@) == completed_count(old(responder).sent@),
            position_of(old(self).agent_sessions@, uuid) >= 0 ==> {
                &&& r matches Ok(i) && i == position_of(old(self).agent_sessions@, uuid)
                &&& reset_hit_rel(old(self).agent_sessions@, final(self).agent_sessions@, uuid)
                &&& final(responder).sent@ == old(responder).sent@
            },
            position_of(old(self).agent_sessions@, uuid) < 0 && repository is None ==> (r matches
                Err(HandlerError::ExpectsRepository(c)) && c@ == "chat"@) && final(self).agent_sessions@ == old(self).agent_sessions@ && final(responder).sent@ == old(responder).sent@,
            position_of(old(self).agent_sessions@, uuid) < 0 && (match repository {
                Some(repo) => session_start_succeeds(repo.config, prereqs),
                None => false,
            }) ==> {
                &&& r matches Ok(i) && i == old(self).agent_sessions@.len()
                &&& final(self).agent_sessions@.len() == old(self).agent_sessions@.len() + 1
                &&& final(self).agent_sessions@.subrange(
                    0,
                    old(self).agent_sessions@.len() as int,
                ) == old(self).agent_sessions@
                &&& {
                    let s = final(self).agent_sessions@.last();
                    &&& s.session.session_id == uuid
                    &&& s.session.initial_query@ == message@
                    &&& !s.cancel_token.cancelled
                    &&& s.active_agent.ops@.len() == 0
                    &&& !s.active_agent.stopped
                }
                // whoever asked sees at least the start-up activity note
                &&& final(responder).sent@.len() > old(responder).sent@.len()
                &&& (final(responder).sent@[old(responder).sent@.len() as int] matches Response::Activity(_))
            },
            position_of(old(self).agent_sessions@, uuid) < 0 && repository is Some && !(match
                repository {
                Some(repo) => session_start_succeeds(repo.config, prereqs),
                None => false,
            }) ==> (r matches Err(HandlerError::Session(_))) && final(self).agent_sessions@ == old(self).agent_sessions@,
    {
        let found = self.find_agent_by_uuid(uuid);
        if let Some(pos) = found {
            let ghost pre = self.agent_sessions@;
            let mut session = self.agent_sessions.remove(pos);
            session.reset_cancel_token();
            self.agent_sessions.insert(pos, session);
            proof {
                assert(self.agent_sessions@ =~= pre.update(
                    pos as int,
                    self.agent_sessions@[pos as int],
                ));
                assert(others_same(self.agent_sessions@, pre, pos as int));
                assert(same_session_core(self.agent_sessions@[pos as int], pre[pos as int]));
                assert(forall|j: int| 0 <= j < pre.len() ==> self.agent_sessions@[
                    j
                ].session.session_id == pre[j].session.session_id);
                lemma_position_stable(pre, self.agent_sessions@, uuid);
            }
            return Ok(pos);
        }
        let repo = match repository {
            Some(repo) => repo,
            None => {
                return Err(HandlerError::ExpectsRepository(String::from_str("chat")));
            },
        };
        let ghost base = responder.sent@;
        responder.update("starting up agent for the first time, this might take a while");
        let ghost after_update = responder.sent@;
        proof {
            crate::commands::responder::lemma_count_push_other(base, after_update);
        }
        let title_preview = match &prereqs.chat_title {
            Ok(t) => Some(crate::util::strip_markdown_tags(t.as_str())),
            Err(_) => None,
        };
        let mut builder = Session::builder();
        builder.session_id(uuid);
        builder.repository(repo.duplicate());
        builder.initial_query(message);
        let session = match builder.start(prereqs) {
            Ok(s) => s,
            Err(e) => {
                proof {
                    assert forall|j: int|
                        base.len() <= j < responder.sent@.len() implies ((
                        #[trigger] responder.sent@[j]) is Activity || responder.sent@[j]
                            is RenameChat || responder.sent@[j] is RenameBranch) by {
                        assert(responder.sent@[j] == responder.sent@.last());
                    }
                }
                return Err(HandlerError::Session(e));
            },
        };
        if let Some(title) = title_preview {
            responder.rename_chat(title.as_str());
            proof {
                assert(responder.sent@.subrange(0, after_update.len() as int) == after_update);
                assert(responder.sent@[after_update.len() - 1] == responder.sent@.subrange(
                    0,
                    after_update.len() as int,
                )[after_update.len() - 1]);
                crate::commands::responder::lemma_count_push_other(after_update, responder.sent@);
            }
        }
        let ghost before_branch = responder.sent@;
        responder.rename_branch(session.agent_environment.branch_name.as_str());
        proof {
            assert(responder.sent@.subrange(0, before_branch.len() as int) == before_branch);
            assert(responder.sent@[after_update.len() - 1] == responder.sent@.subrange(
                0,
                before_branch.len() as int,
            )[after_update.len() - 1]);
            crate::commands::responder::lemma_count_push_other(before_branch, responder.sent@);
            assert forall|j: int|
                base.len() <= j < responder.sent@.len() implies ((
                #[trigger] responder.sent@[j]) is Activity || responder.sent@[j] is RenameChat
                    || responder.sent@[j] is RenameBranch) by {
                let sent = responder.sent@;
                if j == sent.len() - 1 {
                } else {
                    assert(sent[j] == sent.subrange(0, before_branch.len() as int)[j]);
                    assert(sent[j] == before_branch[j]);
                    if j < before_branch.len() - 1 {
                        assert(before_branch[j] == before_branch.subrange(
                            0,
                            after_update.len() as int,
                        )[j]);
                        assert(before_branch[j] == after_update[j]);
                        assert(j == after_update.len() - 1);
                    }
                }
            }
        }
        let ghost pre = self.agent_sessions@;
        let new_pos = self.agent_sessions.len();
        self.agent_sessions.push(session);
        proof {
            assert(self.agent_sessions@.subrange(0, pre.len() as int) =~= pre);
            assert(position_of(pre, uuid) < 0);
            assert(forall|j: int| 0 <= j < pre.len() ==> pre[j].session.session_id != uuid) by {
                assert forall|j: int| 0 <= j < pre.len() implies pre[j].session.session_id
                    != uuid by {
                    if pre[j].session.session_id == uuid {
                        lemma_position_first_some(pre, uuid, j);
                    }
                }
            }
        }
        Ok(new_pos)
    }
}

impl CommandHandler {
    /// Runs a query turn on the session at `pos`.
    fn session_query_turn(&mut self, pos: usize, message: &str, outcome: &TurnOutcome) -> (r:
        TurnResult)
        requires
            pos < old(self).agent_sessions@.len(),
        ensures
            others_same(final(self).agent_sessions@, old(self).agent_sessions@, pos as int),
            ({
                let s0 = old(self).agent_sessions@[pos as int];
                let s1 = final(self).agent_sessions@[pos as int];
                &&& s1.session == s0.session
                &&& s1.executor == s0.executor
                &&& s1.agent_environment == s0.agent_environment
                &&& s1.cancel_token == s0.cancel_token
                &&& s1.active_agent.stopped == s0.active_agent.stopped
                &&& s0.cancel_token.cancelled ==> (r is Cancelled) && s1.active_agent.ops@
                    == s0.active_agent.ops@
                &&& !s0.cancel_token.cancelled ==> {
                    &&& s1.active_agent.ops@.len() == s0.active_agent.ops@.len() + 1
                    &&& s1.active_agent.ops@.last() matches AgentOp::Query(q) && q@ == message@
                    &&& s1.active_agent.ops@.subrange(0, s0.active_agent.ops@.len() as int)
                        == s0.active_agent.ops@
                    &&& (match outcome {
                        TurnOutcome::CancelledFirst => r is Cancelled,
                        TurnOutcome::Finished(Ok(())) => r is Done,
                        TurnOutcome::Finished(Err(e)) => r matches TurnResult::Failed(m) && m@
                            == e@,
                    })
                }
            }),
    {
        let ghost pre = self.agent_sessions@;
        let mut session = self.agent_sessions.remove(pos);
        let r = session.query_agent(message, outcome);
        self.agent_sessions.insert(pos, session);
        proof {
            assert(self.agent_sessions@ =~= pre.update(
                pos as int,
                self.agent_sessions@[pos as int],
            ));
        }
        r
    }

    /// Runs a continuation turn on the session at `pos`.
    fn session_run_turn(&mut self, pos: usize, outcome: &TurnOutcome) -> (r: TurnResult)
        requires
            pos < old(self).agent_sessions@.len(),
        ensures
            others_same(final(self).agent_sessions@, old(self).agent_sessions@, pos as int),
            ({
                let s0 = old(self).agent_sessions@[pos as int];
                let s1 = final(self).agent_sessions@[pos as int];
                &&& s1.session == s0.session
                &&& s1.executor == s0.executor
                &&& s1.agent_environment == s0.agent_environment
                &&& s1.cancel_token == s0.cancel_token
                &&& s1.active_agent.stopped == s0.active_agent.stopped
                &&& s0.cancel_token.cancelled ==> (r is Cancelled) && s1.active_agent.ops@
                    == s0.active_agent.ops@
                &&& !s0.cancel_token.cancelled ==> {
                    &&& s1.active_agent.ops@ == s0.active_agent.ops@.push(AgentOp::Run)
                    &&& (match outcome {
                        TurnOutcome::CancelledFirst => r is Cancelled,
                        TurnOutcome::Finished(Ok(())) => r is Done,
                        TurnOutcome::Finished(Err(e)) => r matches TurnResult::Failed(m) && m@
                            == e@,
                    })
                }
            }),
    {
        let ghost pre = self.agent_sessions@;
        let mut session = self.agent_sessions.remove(pos);
        let r = session.run_agent(outcome);
        self.agent_sessions.insert(pos, session);
        proof {
            assert(self.agent_sessions@ =~= pre.update(
                pos as int,
                self.agent_sessions@[pos as int],
            ));
        }
        r
    }

    /// Stops the session at `pos`.
    fn session_stop(&mut self, pos: usize)
        requires
            pos < old(self).agent_sessions@.len(),
        ensures
            others_same(final(self).agent_sessions@, old(self).agent_sessions@, pos as int),
            ({
                let s0 = old(self).agent_sessions@[pos as int];
                let s1 = final(self).agent_sessions@[pos as int];
                &&& s1.session == s0.session
                &&& s1.executor == s0.executor
                &&& s1.agent_environment == s0.agent_environment
                &&& s1.cancel_token.cancelled
                &&& s1.active_agent.stopped
                &&& s0.active_agent.stopped ==> s1.active_agent.ops@ == s0.active_agent.ops@
                &&& !s0.active_agent.stopped ==> s1.active_agent.ops@ == s0.active_agent.ops@.push(
                    AgentOp::Stop,
                )
            }),
    {
        let ghost pre = self.agent_sessions@;
        let mut session = self.agent_sessions.remove(pos);
        session.stop();
        self.agent_sessions.insert(pos, session);
        proof {
            assert(self.agent_sessions@ =~= pre.update(
                pos as int,
                self.agent_sessions@[pos as int],
            ));
        }
    }

    /// Replaces the token of the session at `pos` with a fresh one.
    fn session_reset_token(&mut self, pos: usize)
        requires
            pos < old(self).agent_sessions@.len(),
        ensures
            others_same(final(self).agent_sessions@, old(self).agent_sessions@, pos as int),
            ({
                let s0 = old(self).agent_sessions@[pos as int];
                let s1 = final(self).agent_sessions@[pos as int];
                &&& s1.session == s0.session
                &&& s1.executor == s0.executor
                &&& s1.agent_environment == s0.agent_environment
                &&& !s1.cancel_token.cancelled
                &&& s1.active_agent.ops@ == s0.active_agent.ops@
                &&& s1.active_agent.stopped == s0.active_agent.stopped
            }),
    {
        let ghost pre = self.agent_sessions@;
        let mut session = self.agent_sessions.remove(pos);
        session.reset_cancel_token();
        self.agent_sessions.insert(pos, session);
        proof {
            assert(self.agent_sessions@ =~= pre.update(
                pos as int,
                self.agent_sessions@[pos as int],
            ));
        }
    }

    /// Issues a command in the workspace of the session at `pos`.
    fn session_exec(&mut self, pos: usize, cmd: ExecCommand) -> (r: Result<
        CommandOutput,
        CommandError,
    >)
        requires
            pos < old(self).agent_sessions@.len(),
        ensures
            others_same(final(self).agent_sessions@, old(self).agent_sessions@, pos as int),
            ({
                let s0 = old(self).agent_sessions@[pos as int];
                let s1 = final(self).agent_sessions@[pos as int];
                &&& s1.session == s0.session
                &&& s1.agent_environment == s0.agent_environment
                &&& s1.cancel_token == s0.cancel_token
                &&& s1.active_agent.ops@ == s0.active_agent.ops@
                &&& s1.active_agent.stopped == s0.active_agent.stopped
                &&& s1.executor.responses == s0.executor.responses
                &&& s1.executor.issued@ == s0.executor.issued@.push(cmd)
                &&& s0.executor.cursor < s0.executor.responses@.len() ==> r
                    == s0.executor.responses@[s0.executor.cursor as int]
                &&& s0.executor.cursor >= s0.executor.responses@.len() ==> (r matches Err(
                    CommandError::Failed(_),
                ))
            }),
    {
        let ghost pre = self.agent_sessions@;
        let mut session = self.agent_sessions.remove(pos);
        let r = session.executor.exec_cmd(cmd);
        self.agent_sessions.insert(pos, session);
        proof {
            assert(self.agent_sessions@ =~= pre.update(
                pos as int,
                self.agent_sessions@[pos as int],
            ));
        }
        r
    }

    /// Stops the agent of the session for `uuid` and cancels its token; a
    /// missing or already-stopped session only gets a message.
    pub fn stop_agent(&mut self, uuid: u128, responder: &mut Responder) -> (r: Result<
        (),
        HandlerError,
    >)
        ensures
            r is Ok,
            final(responder).sent@.len() == old(responder).sent@.len() + 1,
            final(responder).sent@.subrange(0, old(responder).sent@.len() as int) == old(responder).sent@,
            completed_count(final(responder).sent@) == completed_count(old(responder).sent@),
            position_of(old(self).agent_sessions@, uuid) < 0 ==> final(self).agent_sessions@
                == old(self).agent_sessions@ && is_system_message(
                final(responder).sent@.last(),
                no_agent_message(),
            ),
            ({
                let pos = position_of(old(self).agent_sessions@, uuid);
                pos >= 0 && old(self).agent_sessions@[pos].cancel_token.cancelled ==> final(self).agent_sessions@ == old(self).agent_sessions@ && is_system_message(
                    final(responder).sent@.last(),
                    "Agent already stopped"@,
                )
            }),
            ({
                let pos = position_of(old(self).agent_sessions@, uuid);
                pos >= 0 && !old(self).agent_sessions@[pos].cancel_token.cancelled ==> {
                    &&& stopped_rel(old(self).agent_sessions@, final(self).agent_sessions@, uuid)
                    &&& is_system_message(final(responder).sent@.last(), "Agent stopped"@)
                }
            }),
    {
        let ghost base = responder.sent@;
        let found = self.find_agent_by_uuid(uuid);
        let pos = match found {
            Some(pos) => pos,
            None => {
                responder.system_message("No agent found (yet), is it starting up?");
                proof {
                    lemma_count_push_other(base, responder.sent@);
                }
                return Ok(());
            },
        };
        if self.agent_sessions[pos].cancel_token.is_cancelled() {
            responder.system_message("Agent already stopped");
            proof {
                lemma_count_push_other(base, responder.sent@);
            }
            return Ok(());
        }
        self.session_stop(pos);
        responder.system_message("Agent stopped");
        proof {
            lemma_count_push_other(base, responder.sent@);
        }
        Ok(())
    }
}

/// What a workspace command's outcome yields under the non-zero-exit
/// policy: its output even on a non-zero exit, nothing when it could not be
/// run at all or the script is exhausted.
pub open spec fn lenient_output_at(ex: ScriptedExecutor, k: int) -> Option<Seq<char>> {
    if ex.cursor + k < ex.responses@.len() {
        match ex.responses@[ex.cursor + k] {
            Ok(o) => Some(o.output@),
            Err(CommandError::NonZeroExit(o)) => Some(o.output@),
            Err(CommandError::Failed(_)) => None,
        }
    } else {
        None
    }
}

/// What a turn outcome turns into for the dispatcher: a failure message, or
/// nothing.
pub open spec fn turn_result_ok(outcome: TurnOutcome) -> bool {
    match outcome {
        TurnOutcome::CancelledFirst => true,
        TurnOutcome::Finished(res) => res is Ok,
    }
}


/// One dispatch of an event, as `handle_command_event` performs it: `pre`
/// and `post` are the registry around the step, `event0` the event as it
/// arrived (its responder holding what was already sent), `responses` the
/// responder's stream after the step, and `ok` whether handling succeeded.
/// This is the full per-command contract of the dispatcher, and `run`
/// chains it over every processed event.
pub open spec fn dispatch_step(
    pre: Seq<RunningSession>,
    post: Seq<RunningSession>,
    event0: CommandEvent,
    responses: Seq<Response>,
    script: EventScript,
    ok: bool,
) -> bool {
    let before = event0.responder.sent@;
    &&& responses.len() >= before.len()
    &&& responses.subrange(0, before.len() as int) =~= before
    // handled without an error iff the stream ends with a closing note:
    // the command's success message, or the no-agent note
    &&& (ok <==> (responses.len() > before.len() && (is_system_message(
        responses.last(),
        success_message(event0.command, script.elapsed_seconds as int),
    ) || is_system_message(responses.last(), no_agent_message()))))
    // the commands with no soft no-agent path always close with their
    // success note
    &&& ((ok && (event0.command is StopAgent || event0.command is ShowConfig || event0.command
        is IndexRepository || event0.command matches Command::Chat { .. }))
        ==> is_system_message(
        responses.last(),
        success_message(event0.command, script.elapsed_seconds as int),
    ))
    // handling never sends the terminal marker itself
    &&& completed_count(responses) == completed_count(before)
    // an error sends no backend message of its own
    &&& (!ok ==> forall|j: int|
        before.len() <= j < responses.len() ==> ((#[trigger] responses[j]) is Activity
            || responses[j] is RenameChat || responses[j] is RenameBranch))
    // a missing repository is rejected before anything is sent
    &&& (((event0.command is ShowConfig || event0.command is IndexRepository)
        && event0.repository is None) ==> !ok && responses =~= before)
    &&& ((event0.command matches Command::Chat { .. } && event0.repository is None
        && position_of(pre, event0.uuid) < 0) ==> !ok && responses =~= before)
    // stopping is delegated: the registry changes exactly as `stop_agent`
    // says
    &&& (event0.command is StopAgent ==> ok && ({
        let pos = position_of(pre, event0.uuid);
        &&& pos < 0 ==> post =~= pre
        &&& pos >= 0 && pre[pos].cancel_token.cancelled ==> post =~= pre
        &&& pos >= 0 && !pre[pos].cancel_token.cancelled ==> stopped_rel(pre, post, event0.uuid)
    }))
    // a chat turn: find or start the session, then race the query
    &&& (event0.command matches Command::Chat { message } ==> ({
        let pos = position_of(pre, event0.uuid);
        &&& pos >= 0 ==> {
            &&& others_same(post, pre, pos)
            &&& ({
                let s1 = post[pos];
                &&& !s1.cancel_token.cancelled
                &&& s1.active_agent.ops@.len() == pre[pos].active_agent.ops@.len() + 1
                &&& s1.active_agent.ops@.last() matches AgentOp::Query(q) && q@ == message@
                &&& (ok <==> turn_result_ok(script.turn))
            })
        }
        &&& pos < 0 && event0.repository is None ==> !ok && post =~= pre
        &&& pos < 0 && (match event0.repository {
            Some(repo) => session_start_succeeds(repo.config, script.prereqs),
            None => false,
        }) ==> {
            &&& post.len() == pre.len() + 1
            &&& post.subrange(0, pre.len() as int) =~= pre
            &&& ({
                let s1 = post.last();
                &&& s1.session.session_id == event0.uuid
                &&& !s1.cancel_token.cancelled
                &&& s1.active_agent.ops@.len() == 1
                &&& s1.active_agent.ops@.last() matches AgentOp::Query(q) && q@ == message@
                &&& (ok <==> turn_result_ok(script.turn))
            })
        }
        &&& pos < 0 && event0.repository is Some && !(match event0.repository {
            Some(repo) => session_start_succeeds(repo.config, script.prereqs),
            None => false,
        }) ==> !ok && post =~= pre
    }))
    // a retry resets an already-cancelled token before resuming
    &&& (event0.command is RetryChat ==> ({
        let pos = position_of(pre, event0.uuid);
        &&& pos < 0 ==> ok && post =~= pre && responses.len() == before.len() + 1
            && is_system_message(responses.last(), no_agent_message())
        &&& pos >= 0 ==> {
            &&& others_same(post, pre, pos)
            &&& !post[pos].cancel_token.cancelled
            &&& !pre[pos].cancel_token.cancelled ==> post[pos].cancel_token
                == pre[pos].cancel_token
            &&& (match script.redrive {
                Ok(()) => post[pos].active_agent.ops@ =~= pre[pos].active_agent.ops@.push(
                    AgentOp::Run,
                ) && (ok <==> turn_result_ok(script.turn)),
                Err(_) => !ok && post[pos].active_agent.ops@ =~= pre[pos].active_agent.ops@,
            })
        }
    }))
    // feedback resumes the turn the same way
    &&& (event0.command matches Command::ToolFeedback { tool_call, feedback } ==> ({
        let pos = position_of(pre, event0.uuid);
        &&& pos < 0 ==> ok && post =~= pre && responses.len() == before.len() + 1
            && is_system_message(responses.last(), no_agent_message())
        &&& pos >= 0 ==> {
            &&& others_same(post, pre, pos)
            &&& !post[pos].cancel_token.cancelled
            &&& !pre[pos].cancel_token.cancelled ==> post[pos].cancel_token
                == pre[pos].cancel_token
            &&& (match script.feedback {
                Ok(()) => post[pos].active_agent.ops@ =~= pre[pos].active_agent.ops@.push(
                    AgentOp::Run,
                ) && (ok <==> turn_result_ok(script.turn)),
                Err(_) => !ok && post[pos].active_agent.ops@ =~= pre[pos].active_agent.ops@,
            })
        }
    }))
    // showing the diff runs `git diff <start-ref>` in the session's
    // workspace and reports what it printed
    &&& (event0.command is Diff ==> ({
        let pos = position_of(pre, event0.uuid);
        &&& pos < 0 ==> ok && post =~= pre && responses.len() == before.len() + 1
            && is_system_message(responses.last(), no_agent_message())
        &&& pos >= 0 ==> {
            &&& others_same(post, pre, pos)
            &&& ({
                let s0 = pre[pos];
                let s1 = post[pos];
                &&& s1.session == s0.session
                &&& s1.agent_environment == s0.agent_environment
                &&& s1.cancel_token == s0.cancel_token
                &&& s1.active_agent.ops@ =~= s0.active_agent.ops@
                &&& s1.executor.responses == s0.executor.responses
                &&& s1.executor.issued@.len() == s0.executor.issued@.len() + 1
                &&& s1.executor.issued@.last() matches ExecCommand::Shell(c) && c@ == "git diff "@
                    + s0.agent_environment.start_ref@
                &&& (match lenient_output_at(s0.executor, 0) {
                    Some(out) => ok && responses.len() >= before.len() + 2 && is_system_message(
                        responses[responses.len() - 2],
                        out,
                    ),
                    None => !ok,
                })
            })
        }
    }))
    // a workspace command runs as given and reports what it printed
    &&& (event0.command matches Command::Exec { cmd } ==> ({
        let pos = position_of(pre, event0.uuid);
        &&& pos < 0 ==> ok && post =~= pre && responses.len() == before.len() + 1
            && is_system_message(responses.last(), no_agent_message())
        &&& pos >= 0 ==> {
            &&& others_same(post, pre, pos)
            &&& ({
                let s0 = pre[pos];
                let s1 = post[pos];
                &&& s1.session == s0.session
                &&& s1.agent_environment == s0.agent_environment
                &&& s1.cancel_token == s0.cancel_token
                &&& s1.active_agent.ops@ =~= s0.active_agent.ops@
                &&& s1.executor.responses == s0.executor.responses
                &&& s1.executor.issued@.len() == s0.executor.issued@.len() + 1
                &&& s1.executor.issued@.last() matches ExecCommand::Shell(c) && c@ == cmd@
                &&& (match lenient_output_at(s0.executor, 0) {
                    Some(out) => ok && responses.len() >= before.len() + 2 && is_system_message(
                        responses[responses.len() - 2],
                        out,
                    ),
                    None => !ok,
                })
            })
        }
    }))
    // showing the configuration sends it, rendered in full, right before
    // the closing note
    &&& ((event0.command is ShowConfig && ok) ==> responses.len() >= before.len() + 2 && (match
        event0.repository {
        Some(repo) => is_system_message(
            responses[responses.len() - 2],
            crate::config::config_text_spec(repo.config),
        ),
        None => false,
    }))
    // the read-only commands leave the registry's sessions in place
    &&& (event0.command is ShowConfig ==> post =~= pre && (ok <==> event0.repository is Some))
    &&& (event0.command is IndexRepository ==> post =~= pre && (ok <==> (event0.repository is Some
        && script.index_result is Ok)))
}

/// Closes a handled command with its success note.
fn send_success_note(responder: &mut Responder, command: &Command, elapsed_seconds: usize)
    ensures
        final(responder).sent@.len() == old(responder).sent@.len() + 1,
        final(responder).sent@.subrange(0, old(responder).sent@.len() as int) == old(responder).sent@,
        completed_count(final(responder).sent@) == completed_count(old(responder).sent@),
        is_system_message(
            final(responder).sent@.last(),
            success_message(*command, elapsed_seconds as int),
        ),
        old(responder).sent@.len() > 0 ==> final(responder).sent@[old(responder).sent@.len() - 1]
            == old(responder).sent@.last(),
{
    let name = command.name();
    let mut msg = String::from_str("Command ");
    msg.append(name);
    msg.append(" successful in ");
    let secs = crate::text::usize_to_string(elapsed_seconds);
    msg.append(secs.as_str());
    msg.append(" seconds");
    let ghost mid = responder.sent@;
    responder.system_message(msg.as_str());
    proof {
        lemma_count_push_other(mid, responder.sent@);
        assert(responder.sent@.subrange(0, mid.len() as int) == mid);
        if mid.len() > 0 {
            assert(responder.sent@[mid.len() - 1] == responder.sent@.subrange(
                0,
                mid.len() as int,
            )[mid.len() - 1]);
        }
        assert(msg@ =~= success_message(*command, elapsed_seconds as int));
    }
}

impl CommandHandler {
    /// Handles one dispatched command.  `Quit` never reaches this point; it
    /// is drained by [`CommandHandler::run`].
    ///
    /// Commands that need a session but find none answer with a message and
    /// succeed.  A successfully handled command ends with a `Command …
    /// successful` message; a failure is returned and reported by the run
    /// loop.
    pub fn handle_command_event(&mut self, event: &mut CommandEvent, script: EventScript) -> (r:
        Result<(), HandlerError>)
        requires
            !(old(event).command is Quit),
            registry_wf(old(self).agent_sessions@),
        ensures
            registry_wf(final(self).agent_sessions@),
            final(event).command == old(event).command,
            final(event).uuid == old(event).uuid,
            final(event).repository == old(event).repository,
            // the whole dispatch relation: the registry around the step,
            // the event, its stream, the script, and whether it succeeded
            dispatch_step(
                old(self).agent_sessions@,
                final(self).agent_sessions@,
                *old(event),
                final(event).responder.sent@,
                script,
                r is Ok,
            ),
            // the error kinds, named
            ((old(event).command is ShowConfig || old(event).command is IndexRepository)
                && old(event).repository is None) ==> (r matches Err(
                HandlerError::ExpectsRepository(c),
            ) && c@ == command_name(old(event).command)),
            (old(event).command matches Command::Chat { .. } && position_of(
                old(self).agent_sessions@,
                old(event).uuid,
            ) < 0 && old(event).repository is None) ==> (r matches Err(
                HandlerError::ExpectsRepository(c),
            ) && c@ == command_name(old(event).command)),
            (old(event).command matches Command::Chat { .. } && position_of(
                old(self).agent_sessions@,
                old(event).uuid,
            ) < 0 && (match old(event).repository {
                Some(repo) => !session_start_succeeds(repo.config, script.prereqs),
                None => false,
            })) ==> (r matches Err(HandlerError::Session(_))),
            (old(event).command is RetryChat && position_of(
                old(self).agent_sessions@,
                old(event).uuid,
            ) >= 0 && script.redrive is Err) ==> (r matches Err(HandlerError::RedriveFailed(_))),
            (old(event).command matches Command::ToolFeedback { .. } && position_of(
                old(self).agent_sessions@,
                old(event).uuid,
            ) >= 0 && script.feedback is Err) ==> (r matches Err(
                HandlerError::FeedbackFailed(_),
            )),
            ((old(event).command is Diff || old(event).command matches Command::Exec { .. })
                && position_of(old(self).agent_sessions@, old(event).uuid) >= 0
                && lenient_output_at(
                old(self).agent_sessions@[position_of(old(self).agent_sessions@, old(event).uuid)].executor,
                0,
            ) is None) ==> (r matches Err(HandlerError::ExecFailed(_))),
            (old(event).command is IndexRepository && old(event).repository is Some
                && script.index_result is Err) ==> (r matches Err(HandlerError::IndexFailed(_))),
    {
        let ghost sessions0 = self.agent_sessions@;
        let uuid = event.uuid;
        let EventScript { prereqs, turn, index_result, redrive, feedback, elapsed_seconds } =
            script;
        match &event.command {
            Command::Quit => {
                proof {
                    assert(false);
                }
                Err(HandlerError::ExpectsRepository(String::new()))
            },
            Command::StopAgent => {
                let r = self.stop_agent(uuid, &mut event.responder);
                if let Err(e) = r {
                    return Err(e);
                }
                send_success_note(&mut event.responder, &event.command, elapsed_seconds);
                Ok(())
            },
            Command::IndexRepository => {
                if event.repository.is_none() {
                    return Err(
                        HandlerError::ExpectsRepository(
                            crate::text::copy_str(event.command.name()),
                        ),
                    );
                }
                if let Err(e) = index_result {
                    return Err(HandlerError::IndexFailed(e));
                }
                send_success_note(&mut event.responder, &event.command, elapsed_seconds);
                Ok(())
            },
            Command::ShowConfig => {
                let rendered = match &event.repository {
                    Some(repo) => repo.config().render(),
                    None => {
                        return Err(
                            HandlerError::ExpectsRepository(
                                crate::text::copy_str(event.command.name()),
                            ),
                        );
                    },
                };
                let ghost mid0 = event.responder.sent@;
                event.responder.system_message(rendered.as_str());
                proof {
                    lemma_count_push_other(mid0, event.responder.sent@);
                }
                send_success_note(&mut event.responder, &event.command, elapsed_seconds);
                Ok(())
            },
            Command::Chat { message } => {
                let found = self.find_or_start_agent_by_uuid(
                    uuid,
                    event.repository.as_ref(),
                    message.as_str(),
                    &mut event.responder,
                    prereqs,
                );
                let pos = match found {
                    Ok(pos) => pos,
                    Err(e) => {
                        return Err(e);
                    },
                };
                let outcome = self.session_query_turn(pos, message.as_str(), &turn);
                if let TurnResult::Failed(m) = outcome {
                    return Err(HandlerError::AgentFailed(m));
                }
                send_success_note(&mut event.responder, &event.command, elapsed_seconds);
                Ok(())
            },
            Command::Diff => {
                let found = self.find_agent_by_uuid(uuid);
                let pos = match found {
                    Some(pos) => pos,
                    None => {
                        let ghost mid = event.responder.sent@;
                        event.responder.system_message(
                            "No agent found (yet), is it starting up?",
                        );
                        proof {
                            lemma_count_push_other(mid, event.responder.sent@);
                        }
                        return Ok(());
                    },
                };
                let mut cmd = String::from_str("git diff ");
                cmd.append(self.agent_sessions[pos].agent_environment.start_ref.as_str());
                let outcome = self.session_exec(pos, ExecCommand::Shell(cmd));
                let output = match crate::util::accept_non_zero_exit(outcome) {
                    Ok(o) => o,
                    Err(CommandError::Failed(m)) => {
                        return Err(HandlerError::ExecFailed(m));
                    },
                    Err(CommandError::NonZeroExit(o)) => o,
                };
                let ghost mid0 = event.responder.sent@;
                event.responder.system_message(output.output.as_str());
                proof {
                    lemma_count_push_other(mid0, event.responder.sent@);
                }
                send_success_note(&mut event.responder, &event.command, elapsed_seconds);
                Ok(())
            },
            Command::Exec { cmd } => {
                let found = self.find_agent_by_uuid(uuid);
                let pos = match found {
                    Some(pos) => pos,
                    None => {
                        let ghost mid = event.responder.sent@;
                        event.responder.system_message(
                            "No agent found (yet), is it starting up?",
                        );
                        proof {
                            lemma_count_push_other(mid, event.responder.sent@);
                        }
                        return Ok(());
                    },
                };
                let shell = crate::text::copy_str(cmd.as_str());
                let outcome = self.session_exec(pos, ExecCommand::Shell(shell));
                let output = match crate::util::accept_non_zero_exit(outcome) {
                    Ok(o) => o,
                    Err(CommandError::Failed(m)) => {
                        return Err(HandlerError::ExecFailed(m));
                    },
                    Err(CommandError::NonZeroExit(o)) => o,
                };
                let ghost mid0 = event.responder.sent@;
                event.responder.system_message(output.output.as_str());
                proof {
                    lemma_count_push_other(mid0, event.responder.sent@);
                }
                send_success_note(&mut event.responder, &event.command, elapsed_seconds);
                Ok(())
            },
            Command::RetryChat => {
                let found = self.find_agent_by_uuid(uuid);
                let pos = match found {
                    Some(pos) => pos,
                    None => {
                        let ghost mid = event.responder.sent@;
                        event.responder.system_message(
                            "No agent found (yet), is it starting up?",
                        );
                        proof {
                            lemma_count_push_other(mid, event.responder.sent@);
                        }
                        return Ok(());
                    },
                };
                if self.agent_sessions[pos].cancel_token.is_cancelled() {
                    self.session_reset_token(pos);
                }
                if let Err(e) = redrive {
                    return Err(HandlerError::RedriveFailed(e));
                }
                let outcome = self.session_run_turn(pos, &turn);
                if let TurnResult::Failed(m) = outcome {
                    return Err(HandlerError::AgentFailed(m));
                }
                send_success_note(&mut event.responder, &event.command, elapsed_seconds);
                Ok(())
            },
            Command::ToolFeedback { tool_call: _, feedback: _fb } => {
                let found = self.find_agent_by_uuid(uuid);
                let pos = match found {
                    Some(pos) => pos,
                    None => {
                        let ghost mid = event.responder.sent@;
                        event.responder.system_message(
                            "No agent found (yet), is it starting up?",
                        );
                        proof {
                            lemma_count_push_other(mid, event.responder.sent@);
                        }
                        return Ok(());
                    },
                };
                if self.agent_sessions[pos].cancel_token.is_cancelled() {
                    self.session_reset_token(pos);
                }
                if let Err(e) = feedback {
                    return Err(HandlerError::FeedbackFailed(e));
                }
                let outcome = self.session_run_turn(pos, &turn);
                if let TurnResult::Failed(m) = outcome {
                    return Err(HandlerError::AgentFailed(m));
                }
                send_success_note(&mut event.responder, &event.command, elapsed_seconds);
                Ok(())
            },
        }
    }
}

/// The text a handler error is reported with.
pub open spec fn error_text(e: HandlerError) -> Seq<char> {
    match e {
        HandlerError::ExpectsRepository(c) => "`"@ + c@ + "` expects a repository"@,
        HandlerError::Session(_) => "the session could not be started"@,
        HandlerError::AgentFailed(m) => "the agent failed: "@ + m@,
        HandlerError::ExecFailed(m) => "the command could not be run: "@ + m@,
        HandlerError::IndexFailed(m) => "indexing failed: "@ + m@,
        HandlerError::RedriveFailed(m) => "redriving the conversation failed: "@ + m@,
        HandlerError::FeedbackFailed(m) => "handing feedback to the agent failed: "@ + m@,
    }
}

impl HandlerError {
    /// Prints the error for a system message.
    pub fn describe(&self) -> (r: String)
        ensures
            r@ == error_text(*self),
    {
        match self {
            HandlerError::ExpectsRepository(c) => {
                let mut s = String::from_str("`");
                s.append(c.as_str());
                s.append("` expects a repository");
                s
            },
            HandlerError::Session(_) => String::from_str("the session could not be started"),
            HandlerError::AgentFailed(m) => {
                let mut s = String::from_str("the agent failed: ");
                s.append(m.as_str());
                s
            },
            HandlerError::ExecFailed(m) => {
                let mut s = String::from_str("the command could not be run: ");
                s.append(m.as_str());
                s
            },
            HandlerError::IndexFailed(m) => {
                let mut s = String::from_str("indexing failed: ");
                s.append(m.as_str());
                s
            },
            HandlerError::RedriveFailed(m) => {
                let mut s = String::from_str("redriving the conversation failed: ");
                s.append(m.as_str());
                s
            },
            HandlerError::FeedbackFailed(m) => {
                let mut s = String::from_str("handing feedback to the agent failed: ");
                s.append(m.as_str());
                s
            },
        }
    }
}

/// A system message reporting a failed command.
pub open spec fn is_failure_message(m: Response) -> bool {
    match m {
        Response::BackendMessage(s) => crate::text::starts_with_spec(
            s@,
            "Failed to handle command: "@,
        ),
        _ => false,
    }
}

/// How one handled event's responses end: everything already sent is kept,
/// exactly one `Completed` is added and it is the very last response, and
/// right before it stands the closing note — the command's success message,
/// the no-agent note, or a failure report.
pub open spec fn handled_event_ok(
    cmd: Command,
    secs: int,
    before: Seq<Response>,
    after: Seq<Response>,
) -> bool {
    &&& after.len() >= before.len() + 2
    &&& after.subrange(0, before.len() as int) == before
    &&& after.last() is Completed
    &&& completed_count(after) == completed_count(before) + 1
    &&& (is_system_message(after[after.len() - 2], success_message(cmd, secs))
        || is_system_message(after[after.len() - 2], no_agent_message()) || is_failure_message(
        after[after.len() - 2],
    ))
}

/// The dispatch chain behind one `run`: `chain` lists the registries
/// between the processed events' steps and `oks` whether each step
/// succeeded.  Each step is a [`dispatch_step`] of its event and script;
/// the step's stream is the event's final stream without the loop's own
/// closing responses (the terminal `Completed`, preceded on failure by the
/// failure note).
pub open spec fn dispatch_chain(
    chain: Seq<Seq<RunningSession>>,
    oks: Seq<bool>,
    reg0: Seq<RunningSession>,
    reg1: Seq<RunningSession>,
    events0: Seq<CommandEvent>,
    events1: Seq<CommandEvent>,
    scripts: Seq<EventScript>,
    processed: int,
) -> bool {
    &&& chain.len() == processed + 1
    &&& oks.len() == processed
    &&& chain[0] == reg0
    &&& chain[processed] == reg1
    &&& forall|i: int|
        0 <= i < processed ==> {
            let sent = (#[trigger] events1[i]).responder.sent@;
            let handled = if oks[i] {
                sent.subrange(0, sent.len() - 1)
            } else {
                sent.subrange(0, sent.len() - 2)
            };
            dispatch_step(chain[i], chain[i + 1], events0[i], handled, scripts[i], oks[i])
        }
}

impl CommandHandler {
    /// Drains the given events, in order, until the first `Quit`.  Every
    /// event before it — success or failure — ends with a terminal
    /// `Completed` notification on its responder, a failure additionally
    /// with one failure message after it.  `Quit` itself and everything
    /// after it are returned untouched.
    pub fn run(&mut self, events: Vec<CommandEvent>, scripts: Vec<EventScript>) -> (r: (
        Vec<CommandEvent>,
        usize,
    ))
        requires
            registry_wf(old(self).agent_sessions@),
            scripts@.len() == events@.len(),
        ensures
            registry_wf(final(self).agent_sessions@),
            r.0@.len() == events@.len(),
            r.1 <= events@.len(),
            forall|i: int| 0 <= i < r.1 ==> !((#[trigger] events@[i]).command is Quit),
            r.1 < events@.len() ==> events@[r.1 as int].command is Quit,
            forall|i: int|
                0 <= i < r.1 ==> handled_event_ok(
                    (#[trigger] events@[i]).command,
                    scripts@[i].elapsed_seconds as int,
                    events@[i].responder.sent@,
                    r.0@[i].responder.sent@,
                ) && r.0@[i].command == events@[i].command && r.0@[i].uuid == events@[i].uuid,
            forall|i: int| r.1 <= i < events@.len() ==> r.0@[i] == #[trigger] events@[i],
            // every processed event was really dispatched: a chain of
            // registries links the state before the run to the state after,
            // one dispatch step per event
            exists|chain: Seq<Seq<RunningSession>>, oks: Seq<bool>| #[trigger] dispatch_chain(
                chain,
                oks,
                old(self).agent_sessions@,
                final(self).agent_sessions@,
                events@,
                r.0@,
                scripts@,
                r.1 as int,
            ),
    {
        let ghost evs0 = events@;
        let ghost scr0 = scripts@;
        let ghost reg0 = self.agent_sessions@;
        let ghost mut chain: Seq<Seq<RunningSession>> = seq![self.agent_sessions@];
        let ghost mut oks: Seq<bool> = seq![];
        let mut events = events;
        let mut scripts = scripts;
        let total = events.len();
        let mut out: Vec<CommandEvent> = Vec::new();
        let mut processed: usize = 0;
        loop
            invariant
                registry_wf(self.agent_sessions@),
                total == evs0.len(),
                scr0.len() == evs0.len(),
                out@.len() == processed,
                processed + events@.len() == evs0.len(),
                scripts@.len() == events@.len(),
                events@ == evs0.subrange(processed as int, evs0.len() as int),
                scripts@ == scr0.subrange(processed as int, scr0.len() as int),
                chain.len() == processed + 1,
                oks.len() == processed,
                chain[0] == reg0,
                chain[processed as int] == self.agent_sessions@,
                forall|i: int|
                    0 <= i < processed ==> {
                        let sent = (#[trigger] out@[i]).responder.sent@;
                        let handled = if oks[i] {
                            sent.subrange(0, sent.len() - 1)
                        } else {
                            sent.subrange(0, sent.len() - 2)
                        };
                        dispatch_step(chain[i], chain[i + 1], evs0[i], handled, scr0[i], oks[i])
                    },
                forall|i: int|
                    0 <= i < processed ==> handled_event_ok(
                        (#[trigger] evs0[i]).command,
                        scr0[i].elapsed_seconds as int,
                        evs0[i].responder.sent@,
                        out@[i].responder.sent@,
                    ) && out@[i].command == evs0[i].command && out@[i].uuid == evs0[i].uuid,
                forall|i: int| 0 <= i < processed ==> !((#[trigger] evs0[i]).command is Quit),
            ensures
                registry_wf(self.agent_sessions@),
                out@.len() == processed,
                processed + events@.len() == evs0.len(),
                events@ == evs0.subrange(processed as int, evs0.len() as int),
                events@.len() == 0 || evs0[processed as int].command is Quit,
                chain.len() == processed + 1,
                oks.len() == processed,
                chain[0] == reg0,
                chain[processed as int] == self.agent_sessions@,
                forall|i: int|
                    0 <= i < processed ==> {
                        let sent = (#[trigger] out@[i]).responder.sent@;
                        let handled = if oks[i] {
                            sent.subrange(0, sent.len() - 1)
                        } else {
                            sent.subrange(0, sent.len() - 2)
                        };
                        dispatch_step(chain[i], chain[i + 1], evs0[i], handled, scr0[i], oks[i])
                    },
                forall|i: int|
                    0 <= i < processed ==> handled_event_ok(
                        (#[trigger] evs0[i]).command,
                        scr0[i].elapsed_seconds as int,
                        evs0[i].responder.sent@,
                        out@[i].responder.sent@,
                    ) && out@[i].command == evs0[i].command && out@[i].uuid == evs0[i].uuid,
                forall|i: int| 0 <= i < processed ==> !((#[trigger] evs0[i]).command is Quit),
            decreases events@.len(),
        {
            if events.len() == 0 {
                break ;
            }
            if events[0].command.is_quit() {
                proof {
                    assert(evs0[processed as int].command is Quit);
                }
                break ;
            }
            let mut ev = events.remove(0);
            let script = scripts.remove(0);
            let ghost ev0 = ev;
            let ghost script0 = script;
            let ghost pre_reg = self.agent_sessions@;
            proof {
                assert(evs0.subrange(processed as int, evs0.len() as int).drop_first()
                    =~= evs0.subrange(processed + 1 as int, evs0.len() as int));
                assert(scr0.subrange(processed as int, scr0.len() as int).drop_first()
                    =~= scr0.subrange(processed + 1 as int, scr0.len() as int));
                assert(ev0 == evs0[processed as int]);
                assert(script0 == scr0[processed as int]);
            }
            let ghost sent0 = ev.responder.sent@;
            let res = self.handle_command_event(&mut ev, script);
            let ghost sent1 = ev.responder.sent@;
            let ghost ok_g = res is Ok;
            if let Err(e) = res {
                // report the failure, then close the stream
                let mut msg = String::from_str("Failed to handle command: ");
                msg.append(e.describe().as_str());
                let ghost before_fail = ev.responder.sent@;
                ev.responder.system_message(msg.as_str());
                proof {
                    lemma_count_push_other(before_fail, ev.responder.sent@);
                    assert(ev.responder.sent@.subrange(0, sent0.len() as int) =~= sent0);
                    assert(msg@.subrange(0, "Failed to handle command: "@.len() as int)
                        =~= "Failed to handle command: "@);
                    assert(is_failure_message(ev.responder.sent@.last()));
                }
            }
            let ghost before_completed = ev.responder.sent@;
            ev.responder.send(Response::Completed);
            proof {
                assert(ev.responder.sent@.subrange(0, before_completed.len() as int)
                    =~= before_completed);
                lemma_count_push_completed(before_completed, ev.responder.sent@);
                assert(ev.responder.sent@[before_completed.len() - 1]
                    == ev.responder.sent@.subrange(0, before_completed.len() as int)[
                    before_completed.len() - 1]);
                assert(ev.responder.sent@.subrange(0, sent0.len() as int) =~= sent0);
            }
            proof {
                // the step's stream is the final stream without the loop's
                // own closing responses
                if ok_g {
                    assert(sent1 =~= ev.responder.sent@.subrange(
                        0,
                        ev.responder.sent@.len() - 1,
                    ));
                } else {
                    assert(sent1 =~= ev.responder.sent@.subrange(
                        0,
                        ev.responder.sent@.len() - 2,
                    ));
                }
                chain = chain.push(self.agent_sessions@);
                oks = oks.push(ok_g);
                assert(dispatch_step(
                    chain[processed as int],
                    chain[processed as int + 1],
                    evs0[processed as int],
                    sent1,
                    scr0[processed as int],
                    oks[processed as int],
                ));
            }
            out.push(ev);
            processed += 1;
        }
        // everything from the first quit on is returned untouched
        while events.len() > 0
            invariant
                out@.len() + events@.len() == evs0.len(),
                out@.len() >= processed,
                events@ == evs0.subrange(out@.len() as int, evs0.len() as int),
                chain.len() == processed + 1,
                oks.len() == processed,
                chain[0] == reg0,
                chain[processed as int] == self.agent_sessions@,
                forall|i: int|
                    0 <= i < processed ==> {
                        let sent = (#[trigger] out@[i]).responder.sent@;
                        let handled = if oks[i] {
                            sent.subrange(0, sent.len() - 1)
                        } else {
                            sent.subrange(0, sent.len() - 2)
                        };
                        dispatch_step(chain[i], chain[i + 1], evs0[i], handled, scr0[i], oks[i])
                    },
                forall|i: int|
                    0 <= i < processed ==> handled_event_ok(
                        (#[trigger] evs0[i]).command,
                        scr0[i].elapsed_seconds as int,
                        evs0[i].responder.sent@,
                        out@[i].responder.sent@,
                    ) && out@[i].command == evs0[i].command && out@[i].uuid == evs0[i].uuid,
                forall|i: int| processed <= i < out@.len() ==> out@[i] == #[trigger] evs0[i],
            decreases events@.len(),
        {
            let ev = events.remove(0);
            proof {
                assert(evs0.subrange(out@.len() as int, evs0.len() as int).drop_first()
                    =~= evs0.subrange(out@.len() + 1 as int, evs0.len() as int));
                assert(ev == evs0[out@.len() as int]);
            }
            out.push(ev);
        }
        proof {
            assert(dispatch_chain(
                chain,
                oks,
                reg0,
                self.agent_sessions@,
                evs0,
                out@,
                scr0,
                processed as int,
            ));
        }
        (out, processed)
    }
}

proof fn lemma_position_first_some(sessions: Seq<RunningSession>, uuid: u128, j: int)
    requires
        0 <= j < sessions.len(),
        sessions[j].session.session_id == uuid,
    ensures
        position_of(sessions, uuid) >= 0,
    decreases sessions.len(),
{
    if sessions[0].session.session_id != uuid {
        lemma_position_first_some(sessions.drop_first(), uuid, j - 1);
    }
}

use crate::repository::Repository;

} // verus!
