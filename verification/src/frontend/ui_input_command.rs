//! User input commands: what a `/`-prefixed line in the chat means.
//!
//! A parsed command either maps to a backend [`Command`] or to a frontend
//! [`UIEvent`], depending on which side handles it.

use vstd::prelude::*;

use crate::commands::command::Command;
use crate::frontend::ui_event::UIEvent;
use crate::text;
use crate::text::all_digits;
use crate::text::dec_val;
use crate::text::tokens_spec;

verus! {

/// A command the user typed with a `/` prefix.
#[derive(Clone, Copy, Debug, PartialEq, Eq, Structural)]
pub enum UserInputCommand {
    /// Stop the application.
    Quit,
    /// Show the current configuration.
    ShowConfig,
    /// Force a re-index of the repository.
    IndexRepository,
    /// Switch to the next chat.
    NextChat,
    /// Start a new chat.
    NewChat,
    /// Delete the current chat.
    DeleteChat,
    /// Copy the last message from an agent.
    Copy,
    /// Show or pull changes made by an agent; `show` when no argument is
    /// given.
    Diff(DiffVariant),
    /// Retry the last chat with the agent.
    Retry,
    /// Print help.
    Help,
    /// Fetch and summarize a GitHub issue by number.
    GithubIssue(u64),
}

/// What `/diff` should do.
#[derive(Clone, Copy, Debug, PartialEq, Eq, Structural)]
pub enum DiffVariant {
    /// Print the current changes.
    Show,
    /// Pull the current changes into the agent's branch.
    Pull,
}

impl Default for DiffVariant {
    /// `show`, when no argument picks one.
    fn default() -> (r: Self)
        ensures
            r == DiffVariant::Show,
    {
        DiffVariant::Show
    }
}

/// Why an input line did not parse.
#[derive(Clone, Copy, Debug, PartialEq, Eq, Structural)]
pub enum ParseCommandError {
    /// The word after `/` names no command.
    UnknownCommand,
    /// The `/diff` argument is neither `show` nor `pull`.
    UnknownDiffVariant,
    /// `/gh_issue` needs an issue number.
    IssueNumberRequired,
    /// The `/gh_issue` argument is not a number in range.
    InvalidIssueNumber,
}

/// The command a bare keyword (without `/` and arguments) names.
pub open spec fn keyword_spec(w: Seq<char>) -> Option<UserInputCommand> {
    if w == "quit"@ {
        Some(UserInputCommand::Quit)
    } else if w == "show_config"@ {
        Some(UserInputCommand::ShowConfig)
    } else if w == "index_repository"@ {
        Some(UserInputCommand::IndexRepository)
    } else if w == "next_chat"@ {
        Some(UserInputCommand::NextChat)
    } else if w == "new_chat"@ {
        Some(UserInputCommand::NewChat)
    } else if w == "delete_chat"@ {
        Some(UserInputCommand::DeleteChat)
    } else if w == "copy"@ {
        Some(UserInputCommand::Copy)
    } else if w == "diff"@ {
        Some(UserInputCommand::Diff(DiffVariant::Show))
    } else if w == "retry"@ {
        Some(UserInputCommand::Retry)
    } else if w == "help"@ {
        Some(UserInputCommand::Help)
    } else if w == "gh_issue"@ {
        Some(UserInputCommand::GithubIssue(0))
    } else {
        None
    }
}

/// A decimal number field, when it has digits and fits.
pub open spec fn number_spec(s: Seq<char>) -> Option<int> {
    if s.len() > 0 && all_digits(s) && dec_val(s) <= usize::MAX {
        Some(dec_val(s))
    } else {
        None
    }
}

/// What parsing an input line yields: the first whitespace-separated token
/// without its `/` names the command; `/diff` and `/gh_issue` read their
/// argument from the second token.
pub open spec fn parse_input_spec(input: Seq<char>) -> Result<UserInputCommand, ParseCommandError> {
    let tokens = tokens_spec(input);
    let head = tokens[0].drop_first();
    match keyword_spec(head) {
        None => Err(ParseCommandError::UnknownCommand),
        Some(UserInputCommand::Diff(_)) => {
            if tokens.len() < 2 {
                Ok(UserInputCommand::Diff(DiffVariant::Show))
            } else if tokens[1] == "show"@ {
                Ok(UserInputCommand::Diff(DiffVariant::Show))
            } else if tokens[1] == "pull"@ {
                Ok(UserInputCommand::Diff(DiffVariant::Pull))
            } else {
                Err(ParseCommandError::UnknownDiffVariant)
            }
        },
        Some(UserInputCommand::GithubIssue(_)) => {
            if tokens.len() < 2 {
                Err(ParseCommandError::IssueNumberRequired)
            } else {
                match number_spec(tokens[1]) {
                    Some(n) => Ok(UserInputCommand::GithubIssue(n as u64)),
                    None => Err(ParseCommandError::InvalidIssueNumber),
                }
            }
        },
        Some(c) => Ok(c),
    }
}

impl UserInputCommand {
    /// The backend command this input maps to, when the backend handles it.
    pub fn to_command(&self) -> (r: Option<Command>)
        ensures
            *self is ShowConfig ==> (r matches Some(c) && c is ShowConfig),
            *self is IndexRepository ==> (r matches Some(c) && c is IndexRepository),
            *self is Retry ==> (r matches Some(c) && c is RetryChat),
            !(*self is ShowConfig || *self is IndexRepository || *self is Retry) ==> r is None,
    {
        match self {
            UserInputCommand::ShowConfig => Some(Command::ShowConfig),
            UserInputCommand::IndexRepository => Some(Command::IndexRepository),
            UserInputCommand::Retry => Some(Command::RetryChat),
            _ => None,
        }
    }

    /// The frontend event this input maps to, when the frontend handles it.
    pub fn to_ui_event(&self) -> (r: Option<UIEvent>)
        ensures
            r == (match *self {
                UserInputCommand::NextChat => Some(UIEvent::NextChat),
                UserInputCommand::NewChat => Some(UIEvent::NewChat),
                UserInputCommand::Copy => Some(UIEvent::CopyLastMessage),
                UserInputCommand::DeleteChat => Some(UIEvent::DeleteChat),
                UserInputCommand::Help => Some(UIEvent::Help),
                UserInputCommand::Quit => Some(UIEvent::Quit),
                UserInputCommand::Diff(DiffVariant::Show) => Some(UIEvent::DiffShow),
                UserInputCommand::Diff(DiffVariant::Pull) => Some(UIEvent::DiffPull),
                _ => None::<UIEvent>,
            }),
    {
        match self {
            UserInputCommand::NextChat => Some(UIEvent::NextChat),
            UserInputCommand::NewChat => Some(UIEvent::NewChat),
            UserInputCommand::Copy => Some(UIEvent::CopyLastMessage),
            UserInputCommand::DeleteChat => Some(UIEvent::DeleteChat),
            UserInputCommand::Help => Some(UIEvent::Help),
            UserInputCommand::Quit => Some(UIEvent::Quit),
            UserInputCommand::Diff(DiffVariant::Show) => Some(UIEvent::DiffShow),
            UserInputCommand::Diff(DiffVariant::Pull) => Some(UIEvent::DiffPull),
            _ => None,
        }
    }

    /// Parses a `/`-prefixed input line.
    pub fn parse_from_input(input: &str) -> (r: Result<UserInputCommand, ParseCommandError>)
        requires
            text::starts_with_spec(input@, "/"@),
        ensures
            r == parse_input_spec(input@),
    {
        proof {
            reveal_strlit("/");
            assert(input@.subrange(0, 1)[0] == input@[0]);
            assert(input@[0] == '/');
            assert(!crate::text::is_ws(input@[0]));
        }
        let tokens = text::split_whitespace(input);
        proof {
            assert(tokens_spec(input@).len() > 0) by {
                lemma_tokens_first_starts(input@);
            }
            assert(tokens@.map_values(|x: String| x@)[0] == tokens_spec(input@)[0]);
        }
        let head_token = &tokens[0];
        let head_len = head_token.as_str().unicode_len();
        proof {
            assert(head_token@.len() > 0) by {
                lemma_tokens_first_starts(input@);
            }
        }
        let head = head_token.as_str().substring_char(1, head_len);
        proof {
            assert(head@ =~= tokens_spec(input@)[0].drop_first());
        }
        let base = if text::str_eq(head, "quit") {
            Some(UserInputCommand::Quit)
        } else if text::str_eq(head, "show_config") {
            Some(UserInputCommand::ShowConfig)
        } else if text::str_eq(head, "index_repository") {
            Some(UserInputCommand::IndexRepository)
        } else if text::str_eq(head, "next_chat") {
            Some(UserInputCommand::NextChat)
        } else if text::str_eq(head, "new_chat") {
            Some(UserInputCommand::NewChat)
        } else if text::str_eq(head, "delete_chat") {
            Some(UserInputCommand::DeleteChat)
        } else if text::str_eq(head, "copy") {
            Some(UserInputCommand::Copy)
        } else if text::str_eq(head, "diff") {
            Some(UserInputCommand::Diff(DiffVariant::Show))
        } else if text::str_eq(head, "retry") {
            Some(UserInputCommand::Retry)
        } else if text::str_eq(head, "help") {
            Some(UserInputCommand::Help)
        } else if text::str_eq(head, "gh_issue") {
            Some(UserInputCommand::GithubIssue(0))
        } else {
            None
        };
        let base = match base {
            Some(c) => c,
            None => {
                return Err(ParseCommandError::UnknownCommand);
            },
        };
        match base {
            UserInputCommand::Diff(_) => {
                if tokens.len() < 2 {
                    return Ok(UserInputCommand::Diff(DiffVariant::Show));
                }
                proof {
                    assert(tokens@.map_values(|x: String| x@)[1] == tokens_spec(input@)[1]);
                }
                let arg = &tokens[1];
                if text::str_eq(arg.as_str(), "show") {
                    Ok(UserInputCommand::Diff(DiffVariant::Show))
                } else if text::str_eq(arg.as_str(), "pull") {
                    Ok(UserInputCommand::Diff(DiffVariant::Pull))
                } else {
                    Err(ParseCommandError::UnknownDiffVariant)
                }
            },
            UserInputCommand::GithubIssue(_) => {
                if tokens.len() < 2 {
                    return Err(ParseCommandError::IssueNumberRequired);
                }
                proof {
                    assert(tokens@.map_values(|x: String| x@)[1] == tokens_spec(input@)[1]);
                }
                let arg = &tokens[1];
                match text::parse_usize(arg.as_str()) {
                    Some(n) => Ok(UserInputCommand::GithubIssue(n as u64)),
                    None => Err(ParseCommandError::InvalidIssueNumber),
                }
            },
            c => Ok(c),
        }
    }
}

proof fn lemma_tokens_first_starts(s: Seq<char>)
    requires
        s.len() > 0,
        !crate::text::is_ws(s[0]),
    ensures
        tokens_spec(s).len() > 0,
        tokens_spec(s)[0].len() > 0,
        tokens_spec(s)[0][0] == s[0],
{
    let i = crate::text::find_ws_index(s);
    if 0 <= i < s.len() {
        assert(tokens_spec(s)[0] == s.subrange(0, i));
        assert(i > 0) by {
            if i == 0 {
                lemma_find_ws_zero(s);
            }
        }
    }
}

proof fn lemma_find_ws_zero(s: Seq<char>)
    requires
        s.len() > 0,
        crate::text::find_ws_index(s) == 0,
    ensures
        crate::text::is_ws(s[0]),
{
}

} // verus!
