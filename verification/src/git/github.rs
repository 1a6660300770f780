//! The GitHub side of a session: what the core needs to put credentials
//! into a remote URL.  Talking to the GitHub API happens outside; the
//! session model carries the token, the default branch and the clone URL as
//! plain values.

use vstd::prelude::*;

use crate::text;

verus! {

/// What `url::Url` computes when `user` and `password` are put into `url`:
/// the rewritten URL, or `None` when the URL does not parse or cannot carry
/// credentials.
pub uninterp spec fn credentialed_url(url: Seq<char>, user: Seq<char>, password: Seq<char>) -> Option<
    Seq<char>,
>;

/// Relies on `url::Url::parse`, `Url::set_username`, `Url::set_password` and
/// `Url::to_string`: the rewritten URL depends on the three strings alone.
#[verifier::external_body]
fn set_url_credentials(url: &str, user: &str, password: &str) -> (r: Option<String>)
    ensures
        (r is Some) == (credentialed_url(url@, user@, password@) is Some),
        r matches Some(u) ==> credentialed_url(url@, user@, password@) == Some(u@),
{
    let mut parsed = match url::Url::parse(url) {
        Ok(p) => p,
        Err(_) => return None,
    };
    if parsed.set_username(user).is_err() {
        return None;
    }
    if parsed.set_password(Some(password)).is_err() {
        return None;
    }
    Some(parsed.to_string())
}

/// An SSH-style `git@host:path` URL rewritten to `https`: every colon
/// becomes a slash and the `git@` prefix becomes `https://`; any other URL
/// is left as it is.
pub open spec fn git_url_normalized(s: Seq<char>) -> Seq<char> {
    if text::starts_with_spec(s, "git@"@) {
        "https://"@ + s.map_values(
            |c: char|
                if c == ':' {
                    '/'
                } else {
                    c
                },
        ).subrange(4, s.len() as int)
    } else {
        s
    }
}

/// The GitHub session of a repository, as the core sees it: plain values
/// fetched outside.
#[derive(Clone, Debug)]
pub struct GithubSession {
    /// The access token used for remotes and clones.
    pub token: String,
    /// The repository's default branch.
    pub main_branch: String,
    /// The repository's clone URL, without credentials.
    pub clone_url: String,
}

impl GithubSession {
    /// Puts the session's token into a repository URL, so that the agent can
    /// reach the remote.  An SSH-style URL is first rewritten to `https`.
    pub fn add_token_to_url(&self, repo_url: &str) -> (r: Option<String>)
        ensures
            (r is Some) == (credentialed_url(
                git_url_normalized(repo_url@),
                "x-access-token"@,
                self.token@,
            ) is Some),
            r matches Some(u) ==> credentialed_url(
                git_url_normalized(repo_url@),
                "x-access-token"@,
                self.token@,
            ) == Some(u@),
    {
        if text::starts_with(repo_url, "git@") {
            let len = repo_url.unicode_len();
            let mut mapped = String::new();
            let mut i: usize = 0;
            proof {
                assert(mapped@ =~= repo_url@.subrange(0, 0).map_values(
                    |c: char|
                        if c == ':' {
                            '/'
                        } else {
                            c
                        },
                ));
            }
            while i < len
                invariant
                    len == repo_url@.len(),
                    i <= len,
                    mapped@ == repo_url@.subrange(0, i as int).map_values(
                        |c: char|
                            if c == ':' {
                                '/'
                            } else {
                                c
                            },
                    ),
                decreases len - i,
            {
                let c = repo_url.get_char(i);
                if c == ':' {
                    text::push_char(&mut mapped, '/');
                } else {
                    text::push_char(&mut mapped, c);
                }
                proof {
                    assert(mapped@ =~= repo_url@.subrange(0, i + 1 as int).map_values(
                        |c: char|
                            if c == ':' {
                                '/'
                            } else {
                                c
                            },
                    ));
                }
                i += 1;
            }
            proof {
                assert(repo_url@.subrange(0, len as int) =~= repo_url@);
                reveal_strlit("git@");
                assert(mapped@.len() == len >= 4);
            }
            let mut converted = String::from_str("https://");
            converted.append(mapped.as_str().substring_char(4, len));
            proof {
                assert(converted@ == git_url_normalized(repo_url@));
            }
            set_url_credentials(converted.as_str(), "x-access-token", self.token.as_str())
        } else {
            set_url_credentials(repo_url, "x-access-token", self.token.as_str())
        }
    }

    /// The clone URL with the session's token in it.
    pub fn clone_url_with_token(&self) -> (r: Option<String>)
        ensures
            (r is Some) == (credentialed_url(
                git_url_normalized(self.clone_url@),
                "x-access-token"@,
                self.token@,
            ) is Some),
            r matches Some(u) ==> credentialed_url(
                git_url_normalized(self.clone_url@),
                "x-access-token"@,
                self.token@,
            ) == Some(u@),
    {
        self.add_token_to_url(self.clone_url.as_str())
    }
}

} // verus!
