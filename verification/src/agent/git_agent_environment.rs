//! The one-shot state machine that prepares a git workspace for a session.
//!
//! The mode is chosen once from the configuration: a local executor skips
//! all git setup; a containerised executor configures the git identity and
//! then either clones or pulls the main branch, or only injects credentials
//! into the `origin` remote.  Either way the session ends up on a dedicated
//! work branch, and the resulting snapshot is frozen for the session's life.
//!
//! The commands run through a [`ScriptedExecutor`], so every contract here
//! speaks both about which commands are issued and about what each answer
//! is turned into.

use vstd::prelude::*;

use crate::config::Config;
use crate::executor::CommandError;
use crate::executor::CommandOutput;
use crate::executor::ExecCommand;
use crate::executor::ScriptedExecutor;
use crate::executor::is_shell;
use crate::executor::ok_at;
use crate::executor::avail_at;
use crate::executor::out_at;
use crate::git::github::GithubSession;
use crate::git::github::credentialed_url;
use crate::git::github::git_url_normalized;
use crate::repository::Repository;
use crate::text;
use crate::text::trim_spec;

verus! {

/// The frozen result of workspace setup: the branch the session works on,
/// the ref it started from, and whether the remote can be used.
#[derive(Clone, Debug)]
pub struct GitAgentEnvironment {
    pub branch_name: String,
    pub start_ref: String,
    pub remote_enabled: bool,
}

impl Default for GitAgentEnvironment {
    /// Empty names, remote disabled.
    fn default() -> (r: Self)
        ensures
            r.branch_name@.len() == 0,
            r.start_ref@.len() == 0,
            !r.remote_enabled,
    {
        GitAgentEnvironment {
            branch_name: String::new(),
            start_ref: String::new(),
            remote_enabled: false,
        }
    }
}

/// Why workspace setup failed.
#[derive(Clone, Copy, Debug, PartialEq, Eq, Structural)]
pub enum SetupError {
    /// Configuring the git identity failed.
    GitConfigFailed,
    /// A step that needs the GitHub integration found none configured.
    GithubSessionRequired,
    /// Credentials could not be put into the remote.
    AuthFailed,
    /// Cloning the repository failed.
    CloneFailed,
    /// Checking out the main branch failed.
    CheckoutFailed,
    /// Creating the session's work branch failed.
    WorkBranchFailed,
    /// Reading the current branch or ref failed.
    RefQueryFailed,
}

/// The `git remote set-url origin …` command for a tokenized URL.
pub open spec fn set_origin_cmd(url: Seq<char>) -> Seq<char> {
    "git remote set-url origin "@ + url
}

/// The `git checkout …` command for the main branch.
pub open spec fn checkout_main_cmd(branch: Seq<char>) -> Seq<char> {
    "git checkout "@ + branch
}

/// The `git clone … .` command for a tokenized URL.
pub open spec fn clone_repo_cmd(url: Seq<char>) -> Seq<char> {
    "git clone "@ + url + " ."@
}

/// The force-checkout command for the session's work branch.
pub open spec fn work_branch_cmd(branch: Seq<char>) -> Seq<char> {
    "git checkout -B "@ + branch
}

/// The `git config` command for the agent's user name.
pub open spec fn config_user_name_cmd(name: Seq<char>) -> Seq<char> {
    "git config --global user.name \""@ + name + "\""@
}

/// The `git config` command for the agent's user email.
pub open spec fn config_user_email_cmd(email: Seq<char>) -> Seq<char> {
    "git config --global user.email \""@ + email + "\""@
}

/// A command that touches a git remote: `git remote`, `clone`, `push`,
/// `pull` or `fetch`.
pub open spec fn is_remote_command(c: ExecCommand) -> bool {
    match c {
        ExecCommand::Shell(s) => text::starts_with_spec(s@, "git remote"@)
            || text::starts_with_spec(s@, "git clone"@) || text::starts_with_spec(s@, "git push"@)
            || text::starts_with_spec(s@, "git pull"@) || text::starts_with_spec(s@, "git fetch"@),
        _ => false,
    }
}

proof fn lemma_benign_prefix_not_remote(s: Seq<char>)
    requires
        text::starts_with_spec(s, "git config"@) || text::starts_with_spec(s, "git rev-parse"@)
            || text::starts_with_spec(s, "git checkout"@) || text::starts_with_spec(
            s,
            "git stash"@,
        ),
    ensures
        !text::starts_with_spec(s, "git remote"@),
        !text::starts_with_spec(s, "git clone"@),
        !text::starts_with_spec(s, "git push"@),
        !text::starts_with_spec(s, "git pull"@),
        !text::starts_with_spec(s, "git fetch"@),
{
    reveal_strlit("git config");
    reveal_strlit("git rev-parse");
    reveal_strlit("git checkout");
    reveal_strlit("git stash");
    reveal_strlit("git remote");
    reveal_strlit("git clone");
    reveal_strlit("git push");
    reveal_strlit("git pull");
    reveal_strlit("git fetch");
    if text::starts_with_spec(s, "git config"@) {
        assert(s[4] == 'c' && s[5] == 'o') by {
            assert(s.subrange(0, 10)[4] == s[4]);
            assert(s.subrange(0, 10)[5] == s[5]);
        }
    } else if text::starts_with_spec(s, "git rev-parse"@) {
        assert(s[4] == 'r' && s[5] == 'e' && s[6] == 'v') by {
            assert(s.subrange(0, 13)[4] == s[4]);
            assert(s.subrange(0, 13)[5] == s[5]);
            assert(s.subrange(0, 13)[6] == s[6]);
        }
    } else if text::starts_with_spec(s, "git checkout"@) {
        assert(s[4] == 'c' && s[5] == 'h') by {
            assert(s.subrange(0, 12)[4] == s[4]);
            assert(s.subrange(0, 12)[5] == s[5]);
        }
    } else {
        assert(s[4] == 's') by {
            assert(s.subrange(0, 9)[4] == s[4]);
        }
    }
    if text::starts_with_spec(s, "git remote"@) {
        assert(s.subrange(0, 10)[4] == s[4]);
        assert(s.subrange(0, 10)[6] == s[6]);
        assert(false);
    }
    if text::starts_with_spec(s, "git clone"@) {
        assert(s.subrange(0, 9)[4] == s[4]);
        assert(s.subrange(0, 9)[5] == s[5]);
        assert(false);
    }
    if text::starts_with_spec(s, "git push"@) {
        assert(s.subrange(0, 8)[4] == s[4]);
        assert(false);
    }
    if text::starts_with_spec(s, "git pull"@) {
        assert(s.subrange(0, 8)[4] == s[4]);
        assert(false);
    }
    if text::starts_with_spec(s, "git fetch"@) {
        assert(s.subrange(0, 9)[4] == s[4]);
        assert(false);
    }
}

proof fn lemma_prefix_elements(pre: Seq<ExecCommand>, post: Seq<ExecCommand>)
    requires
        pre.len() <= post.len(),
        post.subrange(0, pre.len() as int) == pre,
    ensures
        forall|j: int| 0 <= j < pre.len() ==> post[j] == pre[j],
{
    assert forall|j: int| 0 <= j < pre.len() implies post[j] == pre[j] by {
        assert(post[j] == post.subrange(0, pre.len() as int)[j]);
    }
}

proof fn lemma_not_work_branch(s: Seq<char>, bn: Seq<char>)
    requires
        text::starts_with_spec(s, "git config"@) || text::starts_with_spec(s, "git rev-parse"@)
            || text::starts_with_spec(s, "git remote"@) || text::starts_with_spec(s, "git stash"@)
            || text::starts_with_spec(s, "git clone"@),
    ensures
        s != work_branch_cmd(bn),
{
    reveal_strlit("git config");
    reveal_strlit("git rev-parse");
    reveal_strlit("git remote");
    reveal_strlit("git stash");
    reveal_strlit("git clone");
    reveal_strlit("git checkout -B ");
    if s == work_branch_cmd(bn) {
        assert(s[4] == 'c' && s[5] == 'h') by {
            assert(s[4] == "git checkout -B "@[4]);
            assert(s[5] == "git checkout -B "@[5]);
        }
        if text::starts_with_spec(s, "git config"@) {
            assert(s.subrange(0, 10)[5] == s[5]);
        } else if text::starts_with_spec(s, "git rev-parse"@) {
            assert(s.subrange(0, 13)[4] == s[4]);
        } else if text::starts_with_spec(s, "git remote"@) {
            assert(s.subrange(0, 10)[4] == s[4]);
        } else if text::starts_with_spec(s, "git stash"@) {
            assert(s.subrange(0, 9)[4] == s[4]);
        } else {
            assert(s.subrange(0, 9)[5] == s[5]);
        }
        assert(false);
    }
}

proof fn lemma_checkout_main_not_work_branch(main: Seq<char>, bn: Seq<char>)
    requires
        main != "-B "@ + bn,
    ensures
        checkout_main_cmd(main) != work_branch_cmd(bn),
{
    reveal_strlit("git checkout ");
    reveal_strlit("git checkout -B ");
    reveal_strlit("-B ");
    if checkout_main_cmd(main) == work_branch_cmd(bn) {
        // the two texts share their first thirteen characters, so equal
        // wholes leave equal tails
        assert(checkout_main_cmd(main).subrange(13, checkout_main_cmd(main).len() as int)
            =~= main);
        assert(work_branch_cmd(bn).subrange(13, work_branch_cmd(bn).len() as int) =~= "-B "@ + bn);
        assert(main == "-B "@ + bn);
        assert(false);
    }
}

/// The clone URL with credentials, when a GitHub session is there and the
/// URL can carry them.
pub open spec fn clone_tokenized(github: Option<GithubSession>) -> Option<Seq<char>> {
    match github {
        None => None,
        Some(gh) => credentialed_url(
            git_url_normalized(gh.clone_url@),
            "x-access-token"@,
            gh.token@,
        ),
    }
}

/// Whether injecting credentials into `origin` succeeds, with the remote
/// URL answered at position `k`.
pub open spec fn auth_succeeds(
    github: Option<GithubSession>,
    ex: ScriptedExecutor,
    k: int,
) -> bool {
    match github {
        None => false,
        Some(gh) => ok_at(ex, k) && credentialed_url(
            git_url_normalized(trim_spec(out_at(ex, k))),
            "x-access-token"@,
            gh.token@,
        ) is Some && ok_at(ex, k + 1),
    }
}

/// How many outcomes the credential-injection step consumes, starting at
/// position `k`.
pub open spec fn auth_consumed(github: Option<GithubSession>, ex: ScriptedExecutor, k: int) -> int {
    match github {
        None => 0,
        Some(gh) => if !ok_at(ex, k) {
            avail_at(ex, k)
        } else if credentialed_url(
            git_url_normalized(trim_spec(out_at(ex, k))),
            "x-access-token"@,
            gh.token@,
        ) is None {
            1int
        } else {
            1 + avail_at(ex, k + 1)
        },
    }
}

/// How many commands the credential-injection step issues, starting at
/// position `k`.
pub open spec fn auth_issued(github: Option<GithubSession>, ex: ScriptedExecutor, k: int) -> int {
    match github {
        None => 0,
        Some(gh) => if !ok_at(ex, k) {
            1int
        } else if credentialed_url(
            git_url_normalized(trim_spec(out_at(ex, k))),
            "x-access-token"@,
            gh.token@,
        ) is None {
            1int
        } else {
            2int
        },
    }
}

/// Whether the clone-or-pull step succeeds, starting at position `k`: in a
/// reused work tree the credential injection and the main-branch checkout
/// must go through; in an empty one the credentialed clone must.
pub open spec fn clone_pull_succeeds(
    github: Option<GithubSession>,
    ex: ScriptedExecutor,
    k: int,
) -> bool {
    if worktree_is_true(ex, k) {
        auth_succeeds(github, ex, k + 1) && ok_at(ex, k + 4)
    } else {
        github is Some && clone_tokenized(github) is Some && ok_at(ex, k + 1)
    }
}

/// Whether the work-tree probe at position `k` answered `true`.
pub open spec fn worktree_is_true(ex: ScriptedExecutor, k: int) -> bool {
    ok_at(ex, k) && trim_spec(out_at(ex, k)) == "true"@
}

/// When the whole setup run succeeds, over the scripted outcomes: the exact
/// command positions of each mode.
pub open spec fn setup_succeeds(
    config: Config,
    github: Option<GithubSession>,
    ex: ScriptedExecutor,
) -> bool {
    if config.tool_executor is Local {
        ok_at(ex, 0) && ok_at(ex, 1)
    } else {
        &&& ok_at(ex, 0) && ok_at(ex, 1) && ok_at(ex, 2)
        &&& if config.git.clone_repository_on_start {
            clone_pull_succeeds(github, ex, 3) && (if worktree_is_true(ex, 3) {
                ok_at(ex, 8) && ok_at(ex, 9) && ok_at(ex, 10)
            } else {
                ok_at(ex, 5) && ok_at(ex, 6) && ok_at(ex, 7)
            })
        } else {
            let a = auth_consumed(github, ex, 3);
            ok_at(ex, 3 + a) && ok_at(ex, 4 + a) && ok_at(ex, 5 + a)
        }
    }
}

/// What the snapshot's `remote_enabled` is when setup succeeds: never for a
/// local executor, always after a clone or pull, and after an auth-only
/// setup exactly when the credential injection went through.
pub open spec fn remote_enabled_spec(
    config: Config,
    github: Option<GithubSession>,
    ex: ScriptedExecutor,
) -> bool {
    if config.tool_executor is Local {
        false
    } else if config.git.clone_repository_on_start {
        true
    } else {
        auth_succeeds(github, ex, 3)
    }
}

impl GitAgentEnvironment {
    /// Prepares the git workspace for a session and freezes the snapshot.
    ///
    /// A local executor skips all git setup and answers with the current
    /// branch and ref.  Otherwise the git identity is configured (failure is
    /// fatal); then, with `clone_repository_on_start`, the main branch is
    /// pulled (any dirty state stashed first) or the repository cloned —
    /// failure fatal; without it, credentials are injected into `origin` —
    /// failure only disables the remote.  Finally the session's work branch
    /// is force-created and the resulting branch and ref are read back.
    pub fn setup(
        repository: &Repository,
        github: Option<&GithubSession>,
        executor: &mut ScriptedExecutor,
        branch_name: &str,
    ) -> (r: Result<GitAgentEnvironment, SetupError>)
        ensures
            final(executor).responses == old(executor).responses,
            final(executor).issued@.len() >= old(executor).issued@.len(),
            final(executor).issued@.subrange(0, old(executor).issued@.len() as int) == old(executor).issued@,
            (r is Ok) <==> setup_succeeds(
                repository.config,
                option_model(github),
                *old(executor),
            ),
            r matches Ok(env) ==> {
                let c = final(executor).cursor - old(executor).cursor;
                &&& c >= 2
                &&& env.branch_name@ == trim_spec(out_at(*old(executor), c - 2))
                &&& env.start_ref@ == trim_spec(out_at(*old(executor), c - 1))
                &&& env.remote_enabled == remote_enabled_spec(
                    repository.config,
                    option_model(github),
                    *old(executor),
                )
            },
            // a local executor issues no remote-touching command at all
            repository.config.tool_executor is Local ==> forall|k: int|
                old(executor).issued@.len() <= k < final(executor).issued@.len()
                    ==> !is_remote_command(#[trigger] final(executor).issued@[k]),
            // a containerised setup always creates the session's work branch
            (r is Ok && !(repository.config.tool_executor is Local)) ==> exists|k: int|
                old(executor).issued@.len() <= k < final(executor).issued@.len() && is_shell(
                    #[trigger] final(executor).issued@[k],
                    work_branch_cmd(branch_name@),
                ),
            // a local executor skips all git setup: nothing but the two
            // read-only rev-parse queries is ever issued
            repository.config.tool_executor is Local ==> final(executor).issued@.len() <= old(executor).issued@.len() + 2 && (forall|k: int|
                old(executor).issued@.len() <= k < final(executor).issued@.len() ==> (is_shell(
                    #[trigger] final(executor).issued@[k],
                    "git rev-parse --abbrev-ref HEAD"@,
                ) || is_shell(final(executor).issued@[k], "git rev-parse HEAD"@))),
            (repository.config.tool_executor is Local && r is Ok) ==> final(executor).issued@.len() == old(executor).issued@.len() + 2 && final(executor).cursor == old(executor).cursor + 2 && is_shell(
                final(executor).issued@[old(executor).issued@.len() as int],
                "git rev-parse --abbrev-ref HEAD"@,
            ) && is_shell(
                final(executor).issued@[old(executor).issued@.len() + 1 as int],
                "git rev-parse HEAD"@,
            ),
            repository.config.tool_executor is Local ==> (r matches Ok(env)
                ==> env.branch_name@ == trim_spec(out_at(*old(executor), 0)) && env.start_ref@
                == trim_spec(out_at(*old(executor), 1))),
            // an auth-only setup configures the identity first, then injects
            // the credentials, then creates the work branch and reads the
            // snapshot back
            (r is Ok && repository.config.tool_executor is Docker
                && !repository.config.git.clone_repository_on_start) ==> ({
                let b = old(executor).issued@.len() as int;
                let ai = auth_issued(option_model(github), *old(executor), 3);
                &&& final(executor).issued@.len() == b + 6 + ai
                &&& final(executor).cursor == old(executor).cursor + 6 + auth_consumed(
                    option_model(github),
                    *old(executor),
                    3,
                )
                &&& is_shell(
                    final(executor).issued@[b],
                    config_user_name_cmd(repository.config.git.agent_user_name@),
                )
                &&& is_shell(
                    final(executor).issued@[b + 1],
                    config_user_email_cmd(repository.config.git.agent_user_email@),
                )
                &&& is_shell(
                    final(executor).issued@[b + 2],
                    "git config --global push.autoSetupRemote true"@,
                )
                &&& auth_succeeds(option_model(github), *old(executor), 3) ==> is_shell(
                    final(executor).issued@[b + 3],
                    "git remote get-url origin"@,
                ) && (match option_model(github) {
                    Some(gh) => credentialed_url(
                        git_url_normalized(trim_spec(out_at(*old(executor), 3))),
                        "x-access-token"@,
                        gh.token@,
                    ) matches Some(u) && is_shell(
                        final(executor).issued@[b + 4],
                        set_origin_cmd(u),
                    ),
                    None => false,
                })
                &&& is_shell(final(executor).issued@[b + 3 + ai], work_branch_cmd(branch_name@))
                &&& is_shell(
                    final(executor).issued@[b + 4 + ai],
                    "git rev-parse --abbrev-ref HEAD"@,
                )
                &&& is_shell(final(executor).issued@[b + 5 + ai], "git rev-parse HEAD"@)
            }),
            // a failed identity configuration is fatal and carries its kind
            (!(repository.config.tool_executor is Local) && !(ok_at(*old(executor), 0) && ok_at(
                *old(executor),
                1,
            ) && ok_at(*old(executor), 2))) ==> (r matches Err(e) && e
                == SetupError::GitConfigFailed),
            // a failed clone or pull is fatal and carries its kind
            (repository.config.tool_executor is Docker
                && repository.config.git.clone_repository_on_start && ok_at(*old(executor), 0)
                && ok_at(*old(executor), 1) && ok_at(*old(executor), 2) && !clone_pull_succeeds(
                option_model(github),
                *old(executor),
                3,
            )) ==> (r matches Err(e) && (e == SetupError::GithubSessionRequired || e
                == SetupError::AuthFailed || e == SetupError::CheckoutFailed || e
                == SetupError::CloneFailed)),
            // the fatal failures abort before the work branch is touched
            (r matches Err(e) && !(e is WorkBranchFailed) && !(e is RefQueryFailed)
                && repository.config.git.main_branch@ != "-B "@ + branch_name@) ==> forall|k: int|
                old(executor).issued@.len() <= k < final(executor).issued@.len() ==> !is_shell(
                    #[trigger] final(executor).issued@[k],
                    work_branch_cmd(branch_name@),
                ),
            // with clone-on-start on a reused work tree, the dirty state is
            // stashed before the main branch is checked out
            (repository.config.tool_executor is Docker
                && repository.config.git.clone_repository_on_start && worktree_is_true(
                *old(executor),
                3,
            ) && r is Ok) ==> is_shell(
                final(executor).issued@[old(executor).issued@.len() + 6 as int],
                "git stash --include-untracked"@,
            ) && is_shell(
                final(executor).issued@[old(executor).issued@.len() + 7 as int],
                checkout_main_cmd(repository.config.git.main_branch@),
            ),
    {
        let config = repository.config();
        let ghost base = executor.issued@;
        if matches!(config.tool_executor, crate::config::SupportedToolExecutors::Local) {
            let rb = Self::get_current_branch(executor);
            proof {
                reveal_strlit("git rev-parse --abbrev-ref HEAD");
                reveal_strlit("git rev-parse");
                assert("git rev-parse --abbrev-ref HEAD"@.subrange(0, 13) =~= "git rev-parse"@);
                assert(text::starts_with_spec(
                    "git rev-parse --abbrev-ref HEAD"@,
                    "git rev-parse"@,
                ));
                lemma_benign_prefix_not_remote("git rev-parse --abbrev-ref HEAD"@);
                assert(executor.issued@.subrange(0, base.len() as int) =~= base);
            }
            let branch = match rb {
                Ok(b) => b,
                Err(e) => {
                    return Err(e);
                },
            };
            let ghost mid_l = executor.issued@;
            let rr = Self::get_current_ref(executor);
            proof {
                reveal_strlit("git rev-parse HEAD");
                reveal_strlit("git rev-parse");
                assert("git rev-parse HEAD"@.subrange(0, 13) =~= "git rev-parse"@);
                assert(text::starts_with_spec("git rev-parse HEAD"@, "git rev-parse"@));
                lemma_benign_prefix_not_remote("git rev-parse HEAD"@);
                assert(executor.issued@.subrange(0, base.len() as int) =~= base);
                assert(executor.issued@.subrange(0, mid_l.len() as int) == mid_l);
                lemma_prefix_elements(mid_l, executor.issued@);
            }
            let start_ref = match rr {
                Ok(b) => b,
                Err(e) => {
                    return Err(e);
                },
            };
            return Ok(
                GitAgentEnvironment { branch_name: branch, start_ref, remote_enabled: false },
            );
        }
        let rc = Self::configure_git_user(repository, executor);
        proof {
            assert(executor.issued@.subrange(0, base.len() as int) =~= base);
        }
        if let Err(e) = rc {
            proof {
                if repository.config.git.main_branch@ != "-B "@ + branch_name@ {
                    assert forall|k: int|
                        base.len() <= k < executor.issued@.len() implies !is_shell(
                        #[trigger] executor.issued@[k],
                        work_branch_cmd(branch_name@),
                    ) by {
                        match executor.issued@[k] {
                            ExecCommand::Shell(s) => {
                                lemma_not_work_branch(s@, branch_name@);
                            },
                            _ => {},
                        }
                    }
                }
            }
            return Err(e);
        }
        let ghost mid_cfg = executor.issued@;
        let mut remote_enabled = true;
        if config.git.clone_repository_on_start {
            let rp = Self::clone_or_pull_main(repository, github, executor);
            proof {
                assert(executor.issued@.subrange(0, base.len() as int) =~= base);
                assert(executor.issued@.subrange(0, mid_cfg.len() as int) == mid_cfg);
                lemma_prefix_elements(mid_cfg, executor.issued@);
            }
            if let Err(e) = rp {
                proof {
                    if repository.config.git.main_branch@ != "-B "@ + branch_name@ {
                        assert forall|k: int|
                            base.len() <= k < executor.issued@.len() implies !is_shell(
                            #[trigger] executor.issued@[k],
                            work_branch_cmd(branch_name@),
                        ) by {
                            match executor.issued@[k] {
                                ExecCommand::Shell(s) => {
                                    if k >= mid_cfg.len() && s@ == checkout_main_cmd(
                                        repository.config.git.main_branch@,
                                    ) {
                                        lemma_checkout_main_not_work_branch(
                                            repository.config.git.main_branch@,
                                            branch_name@,
                                        );
                                    } else {
                                        lemma_not_work_branch(s@, branch_name@);
                                    }
                                },
                                _ => {},
                            }
                        }
                    }
                }
                return Err(e);
            }
        } else {
            let ra = Self::setup_github_auth(github, executor);
            proof {
                assert(executor.issued@.subrange(0, base.len() as int) =~= base);
                assert(executor.issued@.subrange(0, mid_cfg.len() as int) == mid_cfg);
                lemma_prefix_elements(mid_cfg, executor.issued@);
            }
            if let Err(_e) = ra {
                remote_enabled = false;
            }
        }
        let ghost mid_pre_wb = executor.issued@;
        let rw = Self::switch_to_work_branch(executor, branch_name);
        let ghost wb_index = executor.issued@.len() - 1;
        proof {
            assert(executor.issued@.subrange(0, base.len() as int) =~= base);
            assert(executor.issued@.subrange(0, mid_pre_wb.len() as int) =~= mid_pre_wb);
            lemma_prefix_elements(mid_pre_wb, executor.issued@);
            assert(is_shell(executor.issued@[wb_index], work_branch_cmd(branch_name@)));
        }
        if let Err(e) = rw {
            return Err(e);
        }
        let ghost mid1 = executor.issued@;
        let rb = Self::get_current_branch(executor);
        proof {
            assert(executor.issued@.subrange(0, base.len() as int) =~= base);
            assert(executor.issued@.subrange(0, mid1.len() as int) == mid1);
            lemma_prefix_elements(mid1, executor.issued@);
            assert(is_shell(executor.issued@[wb_index], work_branch_cmd(branch_name@)));
        }
        let branch = match rb {
            Ok(b) => b,
            Err(e) => {
                return Err(e);
            },
        };
        let ghost mid2 = executor.issued@;
        let rr = Self::get_current_ref(executor);
        proof {
            assert(executor.issued@.subrange(0, base.len() as int) =~= base);
            assert(executor.issued@.subrange(0, mid2.len() as int) == mid2);
            lemma_prefix_elements(mid2, executor.issued@);
            assert(is_shell(executor.issued@[wb_index], work_branch_cmd(branch_name@)));
        }
        let start_ref = match rr {
            Ok(b) => b,
            Err(e) => {
                return Err(e);
            },
        };
        Ok(GitAgentEnvironment { branch_name: branch, start_ref, remote_enabled })
    }

    /// Injects credentials into the `origin` remote: reads the remote URL,
    /// puts the token in, and writes it back.
    fn setup_github_auth(github: Option<&GithubSession>, executor: &mut ScriptedExecutor) -> (r:
        Result<(), SetupError>)
        ensures
            final(executor).responses == old(executor).responses,
            final(executor).issued@.len() >= old(executor).issued@.len(),
            final(executor).issued@.subrange(0, old(executor).issued@.len() as int) == old(executor).issued@,
            (r is Ok) <==> auth_succeeds(option_model(github), *old(executor), 0),
            r matches Err(e) ==> (e == SetupError::GithubSessionRequired || e
                == SetupError::AuthFailed),
            forall|k: int|
                old(executor).issued@.len() <= k < final(executor).issued@.len() ==> (match (
                #[trigger] final(executor).issued@[k]) {
                    ExecCommand::Shell(s) => text::starts_with_spec(s@, "git remote"@),
                    _ => false,
                }),
            final(executor).cursor - old(executor).cursor == auth_consumed(
                option_model(github),
                *old(executor),
                0,
            ),
            final(executor).issued@.len() - old(executor).issued@.len() == auth_issued(
                option_model(github),
                *old(executor),
                0,
            ),
            r is Ok ==> is_shell(
                final(executor).issued@[old(executor).issued@.len() as int],
                "git remote get-url origin"@,
            ) && (match option_model(github) {
                Some(gh) => credentialed_url(
                    git_url_normalized(trim_spec(out_at(*old(executor), 0))),
                    "x-access-token"@,
                    gh.token@,
                ) matches Some(u) && is_shell(
                    final(executor).issued@[old(executor).issued@.len() + 1 as int],
                    set_origin_cmd(u),
                ),
                None => false,
            }),
    {
        let gh = match github {
            Some(gh) => gh,
            None => {
                return Err(SetupError::GithubSessionRequired);
            },
        };
        proof {
            reveal_strlit("git remote get-url origin");
            reveal_strlit("git remote set-url origin ");
            reveal_strlit("git remote");
        }
        let ghost base = executor.issued@;
        let origin = match executor.exec_cmd(
            ExecCommand::Shell(String::from_str("git remote get-url origin")),
        ) {
            Ok(o) => o,
            Err(_) => {
                proof {
                    assert("git remote get-url origin"@.subrange(0, 10) =~= "git remote"@);
                }
                return Err(SetupError::AuthFailed);
            },
        };
        proof {
            assert("git remote get-url origin"@.subrange(0, 10) =~= "git remote"@);
        }
        let trimmed = text::trim(origin.output.as_str());
        let tokenized = match gh.add_token_to_url(trimmed) {
            Some(u) => u,
            None => {
                return Err(SetupError::AuthFailed);
            },
        };
        let mut cmd = String::from_str("git remote set-url origin ");
        cmd.append(tokenized.as_str());
        proof {
            assert(cmd@ =~= set_origin_cmd(tokenized@));
            assert(cmd@.subrange(0, 10) =~= "git remote"@);
        }
        let ghost mid = executor.issued@;
        let rc = executor.exec_cmd(ExecCommand::Shell(cmd));
        proof {
            assert(executor.issued@.subrange(0, mid.len() as int) =~= mid);
            lemma_prefix_elements(mid, executor.issued@);
        }
        match rc {
            Ok(_) => Ok(()),
            Err(_) => Err(SetupError::AuthFailed),
        }
    }

    /// Configures the identity the agent commits under, and automatic
    /// remote setup for pushes.
    fn configure_git_user(repository: &Repository, executor: &mut ScriptedExecutor) -> (r: Result<
        (),
        SetupError,
    >)
        ensures
            final(executor).responses == old(executor).responses,
            final(executor).issued@.len() >= old(executor).issued@.len(),
            final(executor).issued@.subrange(0, old(executor).issued@.len() as int) == old(executor).issued@,
            (r is Ok) <==> (ok_at(*old(executor), 0) && ok_at(*old(executor), 1) && ok_at(
                *old(executor),
                2,
            )),
            r matches Err(e) ==> e == SetupError::GitConfigFailed,
            r is Ok ==> final(executor).cursor == old(executor).cursor + 3,
            r is Ok ==> final(executor).issued@.len() == old(executor).issued@.len() + 3,
            r is Ok ==> is_shell(
                final(executor).issued@[old(executor).issued@.len() as int],
                config_user_name_cmd(repository.config.git.agent_user_name@),
            ) && is_shell(
                final(executor).issued@[old(executor).issued@.len() + 1 as int],
                config_user_email_cmd(repository.config.git.agent_user_email@),
            ) && is_shell(
                final(executor).issued@[old(executor).issued@.len() + 2 as int],
                "git config --global push.autoSetupRemote true"@,
            ),
            forall|k: int|
                old(executor).issued@.len() <= k < final(executor).issued@.len()
                    ==> !is_remote_command(#[trigger] final(executor).issued@[k]) && (match final(executor).issued@[k] {
                    ExecCommand::Shell(s) => text::starts_with_spec(s@, "git config"@),
                    _ => false,
                }),
    {
        let config = repository.config();
        let ghost base = executor.issued@;
        proof {
            reveal_strlit("git config --global user.name \"");
            reveal_strlit("git config --global user.email \"");
            reveal_strlit("git config --global push.autoSetupRemote true");
            reveal_strlit("git config");
        }
        let mut c1 = String::from_str("git config --global user.name \"");
        c1.append(config.git.agent_user_name.as_str());
        c1.append("\"");
        proof {
            assert(c1@.subrange(0, 10) =~= "git config"@);
            assert(text::starts_with_spec(c1@, "git config"@));
            assert(c1@ =~= config_user_name_cmd(config.git.agent_user_name@));
            lemma_benign_prefix_not_remote(c1@);
        }
        let r1 = executor.exec_cmd(ExecCommand::Shell(c1));
        proof {
            assert(executor.issued@.subrange(0, base.len() as int) =~= base);
        }
        let ghost mid1 = executor.issued@;
        if r1.is_err() {
            return Err(SetupError::GitConfigFailed);
        }
        let mut c2 = String::from_str("git config --global user.email \"");
        c2.append(config.git.agent_user_email.as_str());
        c2.append("\"");
        proof {
            assert(c2@.subrange(0, 10) =~= "git config"@);
            assert(text::starts_with_spec(c2@, "git config"@));
            assert(c2@ =~= config_user_email_cmd(config.git.agent_user_email@));
            lemma_benign_prefix_not_remote(c2@);
        }
        let r2 = executor.exec_cmd(ExecCommand::Shell(c2));
        proof {
            assert(executor.issued@.subrange(0, base.len() as int) =~= base);
            assert(executor.issued@.subrange(0, mid1.len() as int) =~= mid1);
            lemma_prefix_elements(mid1, executor.issued@);
        }
        let ghost mid2 = executor.issued@;
        if r2.is_err() {
            return Err(SetupError::GitConfigFailed);
        }
        let c3 = String::from_str("git config --global push.autoSetupRemote true");
        proof {
            assert(c3@.subrange(0, 10) =~= "git config"@);
            assert(text::starts_with_spec(c3@, "git config"@));
            lemma_benign_prefix_not_remote(c3@);
        }
        let r3 = executor.exec_cmd(ExecCommand::Shell(c3));
        proof {
            assert(executor.issued@.subrange(0, base.len() as int) =~= base);
            assert(executor.issued@.subrange(0, mid2.len() as int) =~= mid2);
            lemma_prefix_elements(mid2, executor.issued@);
        }
        if r3.is_err() {
            return Err(SetupError::GitConfigFailed);
        }
        Ok(())
    }

    /// Pulls the main branch in a reused work tree (stashing any dirty
    /// state first), or clones the repository into an empty one.
    fn clone_or_pull_main(
        repository: &Repository,
        github: Option<&GithubSession>,
        executor: &mut ScriptedExecutor,
    ) -> (r: Result<(), SetupError>)
        ensures
            final(executor).responses == old(executor).responses,
            final(executor).issued@.len() >= old(executor).issued@.len(),
            final(executor).issued@.subrange(0, old(executor).issued@.len() as int) == old(executor).issued@,
            (r is Ok) <==> clone_pull_succeeds(option_model(github), *old(executor), 0),
            r matches Err(e) ==> (e == SetupError::GithubSessionRequired || e
                == SetupError::AuthFailed || e == SetupError::CheckoutFailed || e
                == SetupError::CloneFailed),
            forall|k: int|
                old(executor).issued@.len() <= k < final(executor).issued@.len() ==> (match (
                #[trigger] final(executor).issued@[k]) {
                    ExecCommand::Shell(s) => text::starts_with_spec(s@, "git rev-parse"@)
                        || text::starts_with_spec(s@, "git remote"@) || text::starts_with_spec(
                        s@,
                        "git stash"@,
                    ) || text::starts_with_spec(s@, "git clone"@) || s@ == checkout_main_cmd(
                        repository.config.git.main_branch@,
                    ),
                    _ => false,
                }),
            r is Ok && worktree_is_true(*old(executor), 0) ==> final(executor).cursor == old(executor).cursor + 5 && final(executor).issued@.len() == old(executor).issued@.len() + 5
                && is_shell(
                final(executor).issued@[old(executor).issued@.len() + 3 as int],
                "git stash --include-untracked"@,
            ) && is_shell(
                final(executor).issued@[old(executor).issued@.len() + 4 as int],
                checkout_main_cmd(repository.config.git.main_branch@),
            ),
            r is Ok && !worktree_is_true(*old(executor), 0) ==> final(executor).cursor == old(executor).cursor + 2 && final(executor).issued@.len() == old(executor).issued@.len() + 2
                && (clone_tokenized(option_model(github)) matches Some(u) && is_shell(
                final(executor).issued@[old(executor).issued@.len() + 1 as int],
                clone_repo_cmd(u),
            )),
    {
        let ghost base = executor.issued@;
        proof {
            reveal_strlit("git rev-parse --is-inside-work-tree");
            reveal_strlit("git stash --include-untracked");
            reveal_strlit("git rev-parse");
            reveal_strlit("git stash");
            reveal_strlit("git clone");
            reveal_strlit("git clone ");
            reveal_strlit("git checkout ");
        }
        let probe = executor.exec_cmd(
            ExecCommand::Shell(String::from_str("git rev-parse --is-inside-work-tree")),
        );
        proof {
            assert(executor.issued@.subrange(0, base.len() as int) =~= base);
            assert("git rev-parse --is-inside-work-tree"@.subrange(0, 13) =~= "git rev-parse"@);
        }
        let is_work_tree = match probe {
            Ok(o) => text::str_eq(text::trim(o.output.as_str()), "true"),
            Err(_) => false,
        };
        if is_work_tree {
            let ghost mid1 = executor.issued@;
            let ra = Self::setup_github_auth(github, executor);
            proof {
                assert(executor.issued@.subrange(0, base.len() as int) =~= base);
                lemma_prefix_elements(mid1, executor.issued@);
            }
            if let Err(e) = ra {
                return Err(e);
            }
            // stash any dirty state before switching, just to be safe; its
            // outcome does not matter
            let ghost mid2 = executor.issued@;
            let _stash = executor.exec_cmd(
                ExecCommand::Shell(String::from_str("git stash --include-untracked")),
            );
            proof {
                assert(executor.issued@.subrange(0, base.len() as int) =~= base);
                assert(executor.issued@.subrange(0, mid2.len() as int) =~= mid2);
                lemma_prefix_elements(mid2, executor.issued@);
                assert("git stash --include-untracked"@.subrange(0, 9) =~= "git stash"@);
            }
            let mut cmd = String::from_str("git checkout ");
            cmd.append(repository.config().git.main_branch.as_str());
            proof {
                assert(cmd@ =~= checkout_main_cmd(repository.config.git.main_branch@));
            }
            let ghost mid3 = executor.issued@;
            let rc = executor.exec_cmd(ExecCommand::Shell(cmd));
            proof {
                assert(executor.issued@.subrange(0, base.len() as int) =~= base);
                assert(executor.issued@.subrange(0, mid3.len() as int) =~= mid3);
                lemma_prefix_elements(mid3, executor.issued@);
            }
            match rc {
                Ok(_) => Ok(()),
                Err(_) => Err(SetupError::CheckoutFailed),
            }
        } else {
            let gh = match github {
                Some(gh) => gh,
                None => {
                    return Err(SetupError::GithubSessionRequired);
                },
            };
            let tokenized = match gh.clone_url_with_token() {
                Some(u) => u,
                None => {
                    return Err(SetupError::AuthFailed);
                },
            };
            let mut cmd = String::from_str("git clone ");
            cmd.append(tokenized.as_str());
            cmd.append(" .");
            proof {
                assert(cmd@ =~= clone_repo_cmd(tokenized@));
                assert(cmd@.subrange(0, 9) =~= "git clone"@);
            }
            let ghost mid4 = executor.issued@;
            let rc = executor.exec_cmd(ExecCommand::Shell(cmd));
            proof {
                assert(executor.issued@.subrange(0, base.len() as int) =~= base);
                assert(executor.issued@.subrange(0, mid4.len() as int) =~= mid4);
                lemma_prefix_elements(mid4, executor.issued@);
            }
            match rc {
                Ok(_) => Ok(()),
                Err(_) => Err(SetupError::CloneFailed),
            }
        }
    }

    /// Force-creates and checks out the session's work branch.
    fn switch_to_work_branch(executor: &mut ScriptedExecutor, branch_name: &str) -> (r: Result<
        (),
        SetupError,
    >)
        ensures
            final(executor).responses == old(executor).responses,
            final(executor).cursor == old(executor).cursor + avail_at(*old(executor), 0),
            final(executor).issued@.len() == old(executor).issued@.len() + 1,
            final(executor).issued@.subrange(0, old(executor).issued@.len() as int) == old(executor).issued@,
            is_shell(
                final(executor).issued@[old(executor).issued@.len() as int],
                work_branch_cmd(branch_name@),
            ),
            (r is Ok) <==> ok_at(*old(executor), 0),
            r matches Err(e) ==> e == SetupError::WorkBranchFailed,
    {
        let mut cmd = String::from_str("git checkout -B ");
        cmd.append(branch_name);
        match executor.exec_cmd(ExecCommand::Shell(cmd)) {
            Ok(_) => Ok(()),
            Err(_) => Err(SetupError::WorkBranchFailed),
        }
    }

    /// Reads the branch the work tree is on.
    fn get_current_branch(executor: &mut ScriptedExecutor) -> (r: Result<String, SetupError>)
        ensures
            final(executor).responses == old(executor).responses,
            final(executor).cursor == old(executor).cursor + avail_at(*old(executor), 0),
            final(executor).issued@.len() == old(executor).issued@.len() + 1,
            final(executor).issued@.subrange(0, old(executor).issued@.len() as int) == old(executor).issued@,
            is_shell(
                final(executor).issued@[old(executor).issued@.len() as int],
                "git rev-parse --abbrev-ref HEAD"@,
            ),
            (r is Ok) <==> ok_at(*old(executor), 0),
            r matches Err(e) ==> e == SetupError::RefQueryFailed,
            r matches Ok(b) ==> b@ == trim_spec(out_at(*old(executor), 0)),
    {
        match executor.exec_cmd(
            ExecCommand::Shell(String::from_str("git rev-parse --abbrev-ref HEAD")),
        ) {
            Ok(o) => Ok(String::from_str(text::trim(o.output.as_str()))),
            Err(_) => Err(SetupError::RefQueryFailed),
        }
    }

    /// Reads the ref the work tree is on.
    fn get_current_ref(executor: &mut ScriptedExecutor) -> (r: Result<String, SetupError>)
        ensures
            final(executor).responses == old(executor).responses,
            final(executor).cursor == old(executor).cursor + avail_at(*old(executor), 0),
            final(executor).issued@.len() == old(executor).issued@.len() + 1,
            final(executor).issued@.subrange(0, old(executor).issued@.len() as int) == old(executor).issued@,
            is_shell(
                final(executor).issued@[old(executor).issued@.len() as int],
                "git rev-parse HEAD"@,
            ),
            (r is Ok) <==> ok_at(*old(executor), 0),
            r matches Err(e) ==> e == SetupError::RefQueryFailed,
            r matches Ok(b) ==> b@ == trim_spec(out_at(*old(executor), 0)),
    {
        match executor.exec_cmd(ExecCommand::Shell(String::from_str("git rev-parse HEAD"))) {
            Ok(o) => Ok(String::from_str(text::trim(o.output.as_str()))),
            Err(_) => Err(SetupError::RefQueryFailed),
        }
    }
}

/// The session model behind an optional reference, for contracts.
pub open spec fn option_model(github: Option<&GithubSession>) -> Option<GithubSession> {
    match github {
        Some(gh) => Some(*gh),
        None => None,
    }
}

} // verus!
