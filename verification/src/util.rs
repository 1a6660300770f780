//! Shared helpers: markdown-fence stripping, git-command classification, and
//! the non-zero-exit policy for executor outcomes.

use vstd::prelude::*;

use crate::executor::CommandError;
use crate::executor::CommandOutput;
use crate::text;

verus! {

/// What [`strip_markdown_tags`] returns: the fenced body, trimmed, when the
/// text is wrapped in a ```` ```markdown ```` fence long enough to slice;
/// otherwise the text unchanged.
pub open spec fn strip_markdown_spec(s: Seq<char>) -> Seq<char> {
    if text::starts_with_spec(s, "```markdown"@) && text::ends_with_spec(s, "```"@) && s.len()
        >= 15 {
        text::trim_spec(s.subrange(12, s.len() - 3))
    } else {
        s
    }
}

/// Strips a surrounding ```` ```markdown ```` fence, trimming the body.
pub fn strip_markdown_tags(input: &str) -> (r: String)
    ensures
        r@ == strip_markdown_spec(input@),
{
    let len = input.unicode_len();
    if text::starts_with(input, "```markdown") && text::ends_with(input, "```") && len >= 15 {
        proof {
            reveal_strlit("```markdown");
            reveal_strlit("```");
        }
        String::from_str(text::trim(input.substring_char(12, len - 3)))
    } else {
        String::from_str(input)
    }
}

/// True when the shell command switches git branches.
pub fn is_git_branch_change(cmd: &str) -> (r: bool)
    ensures
        r == (text::starts_with_spec(cmd@, "git checkout"@) || text::starts_with_spec(
            cmd@,
            "git switch"@,
        )),
{
    text::starts_with(cmd, "git checkout") || text::starts_with(cmd, "git switch")
}

/// Treats a non-zero exit as a normal result carrying its output; every other
/// error stays an error.
pub fn accept_non_zero_exit(result: Result<CommandOutput, CommandError>) -> (r: Result<
    CommandOutput,
    CommandError,
>)
    ensures
        r == (match result {
            Ok(o) => Ok::<CommandOutput, CommandError>(o),
            Err(CommandError::NonZeroExit(o)) => Ok::<CommandOutput, CommandError>(o),
            Err(e) => Err::<CommandOutput, CommandError>(e),
        }),
{
    match result {
        Ok(output) => Ok(output),
        Err(CommandError::NonZeroExit(output)) => Ok(output),
        Err(err) => Err(err),
    }
}

} // verus!
