//! Naming helpers for sessions: the chat title from a model reply, and a
//! git-safe branch name from a proposed name and the session id.

use vstd::prelude::*;

use crate::text;
use crate::text::trim_spec;

verus! {

/// The lower-case hex character for a digit value.
pub open spec fn hex_digit_char(d: int) -> char {
    ((if d < 10 {
        48 + d
    } else {
        87 + d
    }) as u8) as char
}

/// The lowest `digits` hex digits of `n`, most significant first.
pub open spec fn hex_of(n: int, digits: int) -> Seq<char>
    decreases digits,
{
    if digits <= 0 {
        Seq::empty()
    } else {
        hex_of(n / 16, digits - 1).push(hex_digit_char(n % 16))
    }
}

/// The hyphenated text form of a 128-bit session id: its thirty-two hex
/// digits in 8-4-4-4-12 groups.
pub open spec fn uuid_hyphenated_of(id: u128) -> Seq<char> {
    let h = hex_of(id as int, 32);
    h.subrange(0, 8) + "-"@ + h.subrange(8, 12) + "-"@ + h.subrange(12, 16) + "-"@ + h.subrange(
        16,
        20,
    ) + "-"@ + h.subrange(20, 32)
}

/// Relies on `uuid::Uuid::from_u128` and its hyphenated form: the id's hex
/// digits in 8-4-4-4-12 groups, a function of the value alone.
#[verifier::external_body]
fn uuid_hyphenated(id: u128) -> (r: String)
    ensures
        r@ == uuid_hyphenated_of(id),
        r@.len() == 36,
{
    uuid::Uuid::from_u128(id).hyphenated().to_string()
}

/// A character kept as-is in a branch name: ASCII letters, digits, `-`, `_`
/// and `/`.
pub open spec fn branch_char_ok(c: char) -> bool {
    (97 <= c as u32 && c as u32 <= 122) || (65 <= c as u32 && c as u32 <= 90) || (48 <= c as u32
        && c as u32 <= 57) || c == '-' || c == '_' || c == '/'
}

/// A proposed name made git-safe: every other character becomes `-`.
pub open spec fn sanitized_branch(s: Seq<char>) -> Seq<char> {
    s.map_values(
        |c: char|
            if branch_char_ok(c) {
                c
            } else {
                '-'
            },
    )
}

/// The branch a session works on: the trimmed, git-safe proposed name with
/// the first eight characters of the session id appended; only the id part
/// when nothing of the proposal is left.
pub open spec fn branch_name_spec(proposed: Seq<char>, id: u128) -> Seq<char> {
    let cleaned = sanitized_branch(trim_spec(proposed));
    if cleaned.len() == 0 {
        "kwaak-"@ + uuid_hyphenated_of(id).subrange(0, 8)
    } else {
        cleaned + "-"@ + uuid_hyphenated_of(id).subrange(0, 8)
    }
}

/// Derives the git branch name a session will work on.
pub fn create_branch_name(proposed: &str, session_id: u128) -> (r: String)
    ensures
        r@ == branch_name_spec(proposed@, session_id),
{
    let trimmed = text::trim(proposed);
    let len = trimmed.unicode_len();
    let id_text = uuid_hyphenated(session_id);
    let id_part = id_text.as_str().substring_char(0, 8);
    if len == 0 {
        proof {
            assert(sanitized_branch(trim_spec(proposed@)) =~= Seq::<char>::empty());
        }
        let mut out = String::from_str("kwaak-");
        out.append(id_part);
        return out;
    }
    let mut cleaned = String::new();
    let mut i: usize = 0;
    proof {
        assert(cleaned@ =~= sanitized_branch(trimmed@.subrange(0, 0)));
    }
    while i < len
        invariant
            len == trimmed@.len(),
            i <= len,
            cleaned@ == sanitized_branch(trimmed@.subrange(0, i as int)),
        decreases len - i,
    {
        let c = trimmed.get_char(i);
        let u = c as u32;
        let keep = (97 <= u && u <= 122) || (65 <= u && u <= 90) || (48 <= u && u <= 57) || c == '-'
            || c == '_' || c == '/';
        if keep {
            text::push_char(&mut cleaned, c);
        } else {
            text::push_char(&mut cleaned, '-');
        }
        proof {
            assert(cleaned@ =~= sanitized_branch(trimmed@.subrange(0, i + 1 as int)));
        }
        i += 1;
    }
    proof {
        assert(trimmed@.subrange(0, len as int) =~= trimmed@);
        assert(cleaned@.len() == len);
    }
    cleaned.append("-");
    cleaned.append(id_part);
    cleaned
}

/// The chat title taken from a model reply: the reply with a markdown fence
/// stripped.
pub fn chat_title_from(reply: &str) -> (r: String)
    ensures
        r@ == crate::util::strip_markdown_spec(reply@),
{
    crate::util::strip_markdown_tags(reply)
}

} // verus!
