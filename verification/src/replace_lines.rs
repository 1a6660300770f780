//! Replacing a line range of a file with new content.
//!
//! The caller names a start and end line and the replacement text; the
//! first and last replacement lines must match what stands in the file, and
//! the replacement is re-indented when the file line carries the first
//! content line at an offset.

use vstd::prelude::*;

use crate::text;
use crate::text::lines_spec;
use crate::text::matches_at;
use crate::text::split_char_spec;

verus! {

/// Index of the first occurrence of `sub` in `s` at a position `>= i`; `-1`
/// when there is none.
pub open spec fn ffind_from(s: Seq<char>, sub: Seq<char>, i: int) -> int
    decreases s.len() - i,
{
    if !(0 <= i && i + sub.len() <= s.len()) {
        -1
    } else if sub.len() == 0 {
        i
    } else if matches_at(s, sub, i) {
        i
    } else {
        ffind_from(s, sub, i + 1)
    }
}

proof fn lemma_ffind_at(s: Seq<char>, sub: Seq<char>, from: int, i: int)
    requires
        0 <= from <= i,
        matches_at(s, sub, i),
        forall|j: int| from <= j < i ==> !matches_at(s, sub, j),
    ensures
        ffind_from(s, sub, from) == i,
    decreases i - from,
{
    if from < i {
        if sub.len() == 0 {
            assert(s.subrange(from, from) =~= sub);
            assert(matches_at(s, sub, from));
        } else {
            lemma_ffind_at(s, sub, from + 1, i);
        }
    }
}

proof fn lemma_ffind_none(s: Seq<char>, sub: Seq<char>, from: int)
    requires
        forall|j: int| !matches_at(s, sub, j),
    ensures
        ffind_from(s, sub, from) == -1,
    decreases s.len() - from,
{
    if 0 <= from && from + sub.len() <= s.len() {
        if sub.len() == 0 {
            assert(s.subrange(from, from) =~= sub);
            assert(matches_at(s, sub, from));
        } else {
            lemma_ffind_none(s, sub, from + 1);
        }
    }
}

/// Where the first content line sits in the file line: its first occurrence,
/// or `0` when it does not occur.
pub open spec fn indent_offset(file_line: Seq<char>, content_first: Seq<char>) -> int {
    let i = ffind_from(file_line, content_first, 0);
    if i < 0 {
        0
    } else {
        i
    }
}

/// `c` repeated `n` times.
pub open spec fn char_repeat(c: char, n: int) -> Seq<char>
    decreases n,
{
    if n <= 0 {
        Seq::empty()
    } else {
        char_repeat(c, n - 1).push(c)
    }
}

/// Every non-empty line of `cl` with `m` copies of `c` in front.
pub open spec fn indented_lines(cl: Seq<Seq<char>>, c: char, m: int) -> Seq<Seq<char>> {
    cl.map_values(
        |l: Seq<char>|
            if l.len() > 0 {
                char_repeat(c, m) + l
            } else {
                l
            },
    )
}

/// Why a replacement was refused.
#[derive(Clone, Copy, Debug, PartialEq, Eq, Structural)]
pub enum ReplaceError {
    /// The file's start line does not carry the first content line.
    FirstLineMismatch,
    /// The file's end line does not carry the last content line.
    LastLineMismatch,
}

/// Whether the replacement is accepted: the first content line must occur
/// in the file's start line (unless the range starts at the top), and the
/// last content line in the file's end line (unless the range ends at the
/// bottom).
pub open spec fn replace_ok_spec(
    fc: Seq<char>,
    start_line: int,
    end_line: int,
    content: Seq<char>,
) -> bool {
    let lines = lines_spec(fc);
    let cl = lines_spec(content);
    &&& (start_line > 1 ==> exists|i: int| #[trigger] matches_at(lines[start_line - 1], cl[0], i))
    &&& (end_line < lines.len() ==> exists|i: int| #[trigger] matches_at(
        lines[end_line - 1],
        cl[cl.len() - 1],
        i,
    ))
}

/// The replaced text: the split-kept lines before the range, the indented
/// content, and the split-kept lines after the range, joined with newlines.
pub open spec fn replaced_spec(
    fc: Seq<char>,
    start_line: int,
    end_line: int,
    content: Seq<char>,
) -> Seq<char> {
    let split = split_char_spec(fc, '\n');
    let lines = lines_spec(fc);
    let cl = lines_spec(content);
    let first_line = lines[start_line - 1];
    let m = indent_offset(first_line, cl[0]);
    let ic = if first_line.len() > 0 {
        first_line[0]
    } else {
        ' '
    };
    text::join_spec(
        split.subrange(0, start_line - 1) + indented_lines(cl, ic, m) + split.subrange(
            end_line,
            split.len() as int,
        ),
        "\n"@,
    )
}

proof fn lemma_lines_le_split(s: Seq<char>)
    ensures
        lines_spec(s).len() <= split_char_spec(s, '\n').len(),
    decreases s.len(),
{
    let i = text::find_index(s, '\n');
    if s.len() == 0 {
    } else if 0 <= i < s.len() {
        lemma_lines_le_split(s.subrange(i + 1, s.len() as int));
    }
}

/// Why the tool refuses a replacement request before trying it.
#[derive(Clone, Copy, Debug, PartialEq, Eq, Structural)]
pub enum ReplaceArgsError {
    /// The start line is not a decimal number in range.
    InvalidStartLine,
    /// The end line is not a decimal number in range.
    InvalidEndLine,
    /// A line number lies beyond the end of the file.
    OutOfBounds,
    /// The start line lies after the end line.
    StartAfterEnd,
    /// Line numbers are one-based; zero names no line.
    StartAtZero,
    EndAtZero,
    /// There is no content to put in.
    EmptyContent,
}

/// The decision [`check_replace_args`] makes, in check order: both numbers
/// must parse, lie within the file, name a non-empty one-based range, and
/// the content must have at least one line.
pub open spec fn check_replace_args_spec(
    fc: Seq<char>,
    start: Seq<char>,
    end: Seq<char>,
    content: Seq<char>,
) -> Result<(usize, usize), ReplaceArgsError> {
    let lines_len = lines_spec(fc).len();
    if !(start.len() > 0 && crate::text::all_digits(start) && crate::text::dec_val(start)
        <= usize::MAX) {
        Err(ReplaceArgsError::InvalidStartLine)
    } else if !(end.len() > 0 && crate::text::all_digits(end) && crate::text::dec_val(end)
        <= usize::MAX) {
        Err(ReplaceArgsError::InvalidEndLine)
    } else {
        let s = crate::text::dec_val(start);
        let e = crate::text::dec_val(end);
        if s > lines_len || e > lines_len {
            Err(ReplaceArgsError::OutOfBounds)
        } else if e > 0 && s > e {
            Err(ReplaceArgsError::StartAfterEnd)
        } else if s == 0 {
            Err(ReplaceArgsError::StartAtZero)
        } else if e == 0 {
            Err(ReplaceArgsError::EndAtZero)
        } else if lines_spec(content).len() == 0 {
            Err(ReplaceArgsError::EmptyContent)
        } else {
            Ok((s as usize, e as usize))
        }
    }
}

/// Checks a replacement request as the edit tool receives it: the line
/// numbers as text, the file, and the content.  An accepted pair satisfies
/// everything [`replace_content`] requires.
pub fn check_replace_args(
    file_content: &str,
    start_line: &str,
    end_line: &str,
    content: &str,
) -> (r: Result<(usize, usize), ReplaceArgsError>)
    ensures
        r == check_replace_args_spec(file_content@, start_line@, end_line@, content@),
        r matches Ok((s, e)) ==> 1 <= s <= lines_spec(file_content@).len() && 1 <= e <= lines_spec(
            file_content@,
        ).len() && s <= e && lines_spec(content@).len() >= 1,
{
    let lines = text::split_lines(file_content);
    let lines_len = lines.len();
    proof {
        assert(lines@.map_values(|x: String| x@).len() == lines_spec(file_content@).len());
    }
    let start = match text::parse_usize(start_line) {
        Some(v) => v,
        None => {
            return Err(ReplaceArgsError::InvalidStartLine);
        },
    };
    let end = match text::parse_usize(end_line) {
        Some(v) => v,
        None => {
            return Err(ReplaceArgsError::InvalidEndLine);
        },
    };
    if start > lines_len || end > lines_len {
        return Err(ReplaceArgsError::OutOfBounds);
    }
    if end > 0 && start > end {
        return Err(ReplaceArgsError::StartAfterEnd);
    }
    if start == 0 {
        return Err(ReplaceArgsError::StartAtZero);
    }
    if end == 0 {
        return Err(ReplaceArgsError::EndAtZero);
    }
    let content_lines = text::split_lines(content);
    if content_lines.len() == 0 {
        proof {
            assert(content_lines@.map_values(|x: String| x@).len() == lines_spec(content@).len());
        }
        return Err(ReplaceArgsError::EmptyContent);
    }
    proof {
        assert(content_lines@.map_values(|x: String| x@).len() == lines_spec(content@).len());
    }
    Ok((start, end))
}

/// Replaces lines `start_line..=end_line` of the file with `content`,
/// re-indenting the content to where its first line sits in the file.
pub fn replace_content(
    file_content: &str,
    start_line: usize,
    end_line: usize,
    content: &str,
) -> (r: Result<String, ReplaceError>)
    requires
        1 <= start_line <= lines_spec(file_content@).len(),
        1 <= end_line <= lines_spec(file_content@).len(),
        lines_spec(content@).len() >= 1,
    ensures
        (r is Ok) <==> replace_ok_spec(file_content@, start_line as int, end_line as int, content@),
        r matches Ok(s) ==> s@ == replaced_spec(
            file_content@,
            start_line as int,
            end_line as int,
            content@,
        ),
{
    let lines = text::split_lines(file_content);
    let content_lines = text::split_lines(content);
    let ghost lvs = lines@.map_values(|x: String| x@);
    let ghost cvs = content_lines@.map_values(|x: String| x@);
    proof {
        assert(lvs[start_line - 1] == lines_spec(file_content@)[start_line - 1]);
        assert(lvs[end_line - 1] == lines_spec(file_content@)[end_line - 1]);
        assert(cvs[0] == lines_spec(content@)[0]);
        assert(cvs[cvs.len() - 1] == lines_spec(content@)[lines_spec(content@).len() - 1]);
    }
    let first_line = &lines[start_line - 1];
    let content_first = &content_lines[0];
    if start_line > 1 && !text::contains_sub(first_line.as_str(), content_first.as_str()) {
        return Err(ReplaceError::FirstLineMismatch);
    }
    let last_line = &lines[end_line - 1];
    let content_last = &content_lines[content_lines.len() - 1];
    if end_line < lines.len() && !text::contains_sub(last_line.as_str(), content_last.as_str()) {
        return Err(ReplaceError::LastLineMismatch);
    }
    let m = match text::find_sub(first_line.as_str(), content_first.as_str()) {
        Some(i) => {
            proof {
                lemma_ffind_at(first_line@, content_first@, 0, i as int);
            }
            i
        },
        None => {
            proof {
                lemma_ffind_none(first_line@, content_first@, 0);
            }
            0
        },
    };
    let indent_char = if first_line.as_str().unicode_len() > 0 {
        first_line.as_str().get_char(0)
    } else {
        ' '
    };
    let ghost expected = indented_lines(cvs, indent_char, m as int);
    let mut adjusted: Vec<String> = Vec::new();
    let mut k: usize = 0;
    proof {
        assert(adjusted@.map_values(|x: String| x@) =~= expected.subrange(0, 0));
    }
    while k < content_lines.len()
        invariant
            cvs == content_lines@.map_values(|x: String| x@),
            expected == indented_lines(cvs, indent_char, m as int),
            k <= cvs.len(),
            adjusted@.map_values(|x: String| x@) == expected.subrange(0, k as int),
        decreases cvs.len() - k,
    {
        let l = &content_lines[k];
        let llen = l.as_str().unicode_len();
        let mut built = String::new();
        if llen > 0 {
            let mut p: usize = 0;
            while p < m
                invariant
                    p <= m,
                    built@ == char_repeat(indent_char, p as int),
                decreases m - p,
            {
                text::push_char(&mut built, indent_char);
                p += 1;
            }
            built.append(l.as_str());
        }
        proof {
            assert(cvs[k as int] == content_lines@[k as int]@);
            if cvs[k as int].len() > 0 {
                assert(built@ == char_repeat(indent_char, m as int) + cvs[k as int]);
            } else {
                assert(built@ =~= cvs[k as int]);
            }
            assert(built@ == expected[k as int]);
        }
        let ghost prev = adjusted@.map_values(|x: String| x@);
        adjusted.push(built);
        proof {
            assert(adjusted@.map_values(|x: String| x@) =~= prev.push(expected[k as int]));
            assert(expected.subrange(0, k as int).push(expected[k as int]) =~= expected.subrange(
                0,
                k + 1 as int,
            ));
        }
        k += 1;
    }
    proof {
        assert(expected.subrange(0, expected.len() as int) =~= expected);
    }
    // assemble: everything before the range, the content, everything after
    let split_parts = text::split_char(file_content, '\n');
    let ghost svs = split_parts@.map_values(|x: String| x@);
    proof {
        lemma_lines_le_split(file_content@);
    }
    let mut parts: Vec<String> = Vec::new();
    let mut i: usize = 0;
    proof {
        assert(parts@.map_values(|x: String| x@) =~= svs.subrange(0, 0));
    }
    while i < start_line - 1
        invariant
            svs == split_parts@.map_values(|x: String| x@),
            start_line - 1 <= svs.len(),
            i <= start_line - 1,
            parts@.map_values(|x: String| x@) == svs.subrange(0, i as int),
        decreases start_line - 1 - i,
    {
        let ghost prev = parts@.map_values(|x: String| x@);
        parts.push(split_parts[i].clone());
        proof {
            assert(parts@.map_values(|x: String| x@) =~= prev.push(svs[i as int]));
            assert(svs.subrange(0, i as int).push(svs[i as int]) =~= svs.subrange(0, i + 1 as int));
        }
        i += 1;
    }
    let ghost head = svs.subrange(0, start_line - 1);
    let mut k2: usize = 0;
    while k2 < adjusted.len()
        invariant
            svs == split_parts@.map_values(|x: String| x@),
            adjusted@.map_values(|x: String| x@) == expected,
            head == svs.subrange(0, start_line - 1),
            k2 <= expected.len(),
            parts@.map_values(|x: String| x@) == head + expected.subrange(0, k2 as int),
        decreases adjusted@.len() - k2,
    {
        let ghost prev = parts@.map_values(|x: String| x@);
        parts.push(adjusted[k2].clone());
        proof {
            assert(parts@.map_values(|x: String| x@) =~= prev.push(expected[k2 as int]));
            assert((head + expected.subrange(0, k2 as int)).push(expected[k2 as int]) =~= head
                + expected.subrange(0, k2 + 1 as int));
        }
        k2 += 1;
    }
    proof {
        assert(expected.subrange(0, expected.len() as int) =~= expected);
    }
    let mut i3 = end_line;
    while i3 < split_parts.len()
        invariant
            svs == split_parts@.map_values(|x: String| x@),
            head == svs.subrange(0, start_line - 1),
            end_line <= i3 <= svs.len(),
            parts@.map_values(|x: String| x@) == head + expected + svs.subrange(
                end_line as int,
                i3 as int,
            ),
        decreases svs.len() - i3,
    {
        let ghost prev = parts@.map_values(|x: String| x@);
        parts.push(split_parts[i3].clone());
        proof {
            assert(parts@.map_values(|x: String| x@) =~= prev.push(svs[i3 as int]));
            assert((head + expected + svs.subrange(end_line as int, i3 as int)).push(
                svs[i3 as int],
            ) =~= head + expected + svs.subrange(end_line as int, i3 + 1 as int));
        }
        i3 += 1;
    }
    let result = text::join(&parts, "\n");
    proof {
        assert(parts@.map_values(|x: String| x@) =~= svs.subrange(0, start_line - 1)
            + indented_lines(cvs, indent_char, m as int) + svs.subrange(
            end_line as int,
            svs.len() as int,
        ));
    }
    Ok(result)
}

} // verus!
