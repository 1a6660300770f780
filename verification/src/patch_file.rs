//! Fixing the hunk headers of a unified-format patch.
//!
//! A model may miscount line numbers in the `@@ -a,b +c,d @@` headers it
//! writes.  The logic here parses the hunks of such a patch, searches the
//! target file for the place each hunk really matches, and rebuilds the
//! headers from what it found.

use vstd::prelude::*;

use crate::text;
use crate::text::dec_val;
use crate::text::all_digits;
use crate::text::lines_spec;
use crate::text::tokens_spec;
use crate::text::split_char_spec;
use crate::text::without_char;
use crate::text::starts_with_spec;
use crate::text::trim_spec;

verus! {

/// One `start,range` pair of a hunk header, zero-based start.
#[derive(Clone, Copy, Debug, PartialEq, Eq, Structural)]
pub struct HeaderRange {
    /// The line number the hunk starts at.
    pub start: usize,
    /// How many lines the hunk covers.
    pub range: usize,
}

/// The parsed `@@ -a,b +c,d @@` header of a hunk.
#[derive(Clone, Copy, Debug, PartialEq, Eq, Structural)]
pub struct HunkHeader {
    pub source_range: HeaderRange,
    pub dest_range: HeaderRange,
    /// The corrected ranges, filled in by [`rebuild_hunks`].
    pub fixed_source_range: Option<HeaderRange>,
    pub fixed_dest_range: Option<HeaderRange>,
}

/// One body line of a hunk.
#[derive(Debug)]
pub enum HunkLine {
    Context(String),
    Added(String),
    Removed(String),
}

/// The text of a hunk line, without its `+`/`-` marker.
pub open spec fn line_text(l: HunkLine) -> Seq<char> {
    match l {
        HunkLine::Context(s) => s@,
        HunkLine::Added(s) => s@,
        HunkLine::Removed(s) => s@,
    }
}

/// True for the lines that must be found in the source file: removed and
/// context lines.
pub open spec fn is_matchable(l: HunkLine) -> bool {
    l is Removed || l is Context
}

/// The matchable lines of `lines`, in order.
pub open spec fn matchable_seq(lines: Seq<HunkLine>) -> Seq<HunkLine>
    decreases lines.len(),
{
    if lines.len() == 0 {
        seq![]
    } else {
        matchable_seq(lines.subrange(0, lines.len() - 1)) + (if is_matchable(
            lines[lines.len() - 1],
        ) {
            seq![lines[lines.len() - 1]]
        } else {
            seq![]
        })
    }
}

/// How many lines of `lines` are added.
pub open spec fn added_count(lines: Seq<HunkLine>) -> int
    decreases lines.len(),
{
    if lines.len() == 0 {
        0
    } else {
        added_count(lines.subrange(0, lines.len() - 1)) + (if lines[lines.len() - 1] is Added {
            1int
        } else {
            0int
        })
    }
}

/// How many lines of `lines` are removed.
pub open spec fn removed_count(lines: Seq<HunkLine>) -> int
    decreases lines.len(),
{
    if lines.len() == 0 {
        0
    } else {
        removed_count(lines.subrange(0, lines.len() - 1)) + (if lines[lines.len() - 1] is Removed {
            1int
        } else {
            0int
        })
    }
}

impl HunkLine {
    /// The line's text, without its marker.
    pub fn content(&self) -> (r: &str)
        ensures
            r@ == line_text(*self),
    {
        match self {
            HunkLine::Context(s) => s.as_str(),
            HunkLine::Added(s) => s.as_str(),
            HunkLine::Removed(s) => s.as_str(),
        }
    }

    /// The line as it stands in a patch: its marker back in front.
    pub fn as_patch_line(&self) -> (r: String)
        ensures
            r@ == (match *self {
                HunkLine::Context(s) => s@,
                HunkLine::Added(s) => "+"@ + s@,
                HunkLine::Removed(s) => "-"@ + s@,
            }),
    {
        match self {
            HunkLine::Context(s) => s.clone(),
            HunkLine::Added(s) => {
                let mut r = String::from_str("+");
                r.append(s.as_str());
                r
            },
            HunkLine::Removed(s) => {
                let mut r = String::from_str("-");
                r.append(s.as_str());
                r
            },
        }
    }

    /// True for a removed or context line.
    pub fn is_matchable_line(&self) -> (r: bool)
        ensures
            r == is_matchable(*self),
    {
        match self {
            HunkLine::Removed(_) => true,
            HunkLine::Context(_) => true,
            HunkLine::Added(_) => false,
        }
    }

    /// A field-for-field copy.
    pub fn duplicate(&self) -> (r: HunkLine)
        ensures
            r == *self,
    {
        match self {
            HunkLine::Context(s) => HunkLine::Context(s.clone()),
            HunkLine::Added(s) => HunkLine::Added(s.clone()),
            HunkLine::Removed(s) => HunkLine::Removed(s.clone()),
        }
    }

    /// Parses one patch line: `+` marks an addition, `-` a removal, anything
    /// else is context.
    pub fn parse(s: &str) -> (r: HunkLine)
        ensures
            is_parsed_line(s@, r),
    {
        let len = s.unicode_len();
        if len > 0 && s.get_char(0) == '+' {
            proof {
                assert(s@.subrange(1, s@.len() as int) =~= s@.drop_first());
            }
            HunkLine::Added(String::from_str(s.substring_char(1, len)))
        } else if len > 0 && s.get_char(0) == '-' {
            proof {
                assert(s@.subrange(1, s@.len() as int) =~= s@.drop_first());
            }
            HunkLine::Removed(String::from_str(s.substring_char(1, len)))
        } else {
            HunkLine::Context(String::from_str(s))
        }
    }
}

/// Relates a source line of a patch to its parsed form.
pub open spec fn is_parsed_line(src: Seq<char>, l: HunkLine) -> bool {
    if src.len() > 0 && src[0] == '+' {
        l is Added && line_text(l) == src.drop_first()
    } else if src.len() > 0 && src[0] == '-' {
        l is Removed && line_text(l) == src.drop_first()
    } else {
        l is Context && line_text(l) == src
    }
}

/// One hunk of a unified-format patch.
#[derive(Debug)]
pub struct Hunk {
    /// The parsed header of the hunk.
    pub header: HunkHeader,
    /// The parsed body lines of the hunk.
    pub lines: Vec<HunkLine>,
    /// The full hunk source, header line included.
    pub body: String,
}

impl Hunk {
    /// The removed and context lines of the hunk: what must be found in the
    /// file, in order.
    pub fn matchable_lines(&self) -> (r: Vec<&HunkLine>)
        ensures
            r@.len() == matchable_seq(self.lines@).len(),
            forall|k: int| 0 <= k < r@.len() ==> *r@[k] == matchable_seq(self.lines@)[k],
    {
        let mut out: Vec<&HunkLine> = Vec::new();
        let mut i: usize = 0;
        proof {
            assert(matchable_seq(self.lines@.subrange(0, 0)) =~= Seq::<HunkLine>::empty());
        }
        while i < self.lines.len()
            invariant
                i <= self.lines@.len(),
                out@.len() == matchable_seq(self.lines@.subrange(0, i as int)).len(),
                forall|k: int| 0 <= k < out@.len() ==> *out@[k] == matchable_seq(
                    self.lines@.subrange(0, i as int),
                )[k],
            decreases self.lines@.len() - i,
        {
            let ghost pre = self.lines@.subrange(0, i as int);
            let ghost post = self.lines@.subrange(0, i + 1 as int);
            proof {
                assert(post.subrange(0, post.len() - 1) =~= pre);
                assert(post[post.len() - 1] == self.lines@[i as int]);
            }
            let l = &self.lines[i];
            if l.is_matchable_line() {
                out.push(l);
            }
            i += 1;
        }
        proof {
            assert(self.lines@.subrange(0, self.lines@.len() as int) =~= self.lines@);
        }
        out
    }

    /// Whether `line` is, after trimming, the `index`-th matchable line of
    /// the hunk; false when the hunk has no `index`-th matchable line.
    pub fn matches(&self, line: &str, index: usize) -> (r: bool)
        ensures
            r == {
                let m = matchable_seq(self.lines@);
                index < m.len() && trim_spec(line_text(m[index as int])) == trim_spec(line@)
            },
    {
        let m = self.matchable_lines();
        if index >= m.len() {
            return false;
        }
        let expected = m[index].content();
        text::str_eq(text::trim(expected), text::trim(line))
    }
}

/// A place in the file where a hunk may apply.
#[derive(Clone, Copy, Debug)]
pub struct Candidate<'a> {
    /// The line number in the file the match started at.
    pub start: usize,
    /// How many matchable lines have been matched so far.
    pub current_line: usize,
    /// The hunk being matched.
    pub hunk: &'a Hunk,
}

impl<'a> Candidate<'a> {
    /// A fresh candidate for `hunk`, started at file line `line`.
    pub fn new(line: usize, hunk: &'a Hunk) -> (r: Self)
        ensures
            r.start == line,
            r.current_line == 0,
            r.hunk == hunk,
    {
        Candidate { start: line, current_line: 0, hunk }
    }

    /// The shift in line numbers this hunk causes for everything after it:
    /// lines added minus lines removed.
    pub fn offset(&self) -> (r: isize)
        requires
            self.hunk.lines@.len() <= isize::MAX,
        ensures
            r == added_count(self.hunk.lines@) - removed_count(self.hunk.lines@),
    {
        let mut added: usize = 0;
        let mut removed: usize = 0;
        let mut i: usize = 0;
        proof {
            assert(self.hunk.lines@.subrange(0, 0) =~= Seq::<HunkLine>::empty());
        }
        while i < self.hunk.lines.len()
            invariant
                i <= self.hunk.lines@.len(),
                added == added_count(self.hunk.lines@.subrange(0, i as int)),
                removed == removed_count(self.hunk.lines@.subrange(0, i as int)),
                added <= i,
                removed <= i,
            decreases self.hunk.lines@.len() - i,
        {
            let ghost pre = self.hunk.lines@.subrange(0, i as int);
            let ghost post = self.hunk.lines@.subrange(0, i + 1 as int);
            proof {
                assert(post.subrange(0, post.len() - 1) =~= pre);
                assert(post[post.len() - 1] == self.hunk.lines@[i as int]);
            }
            match &self.hunk.lines[i] {
                HunkLine::Added(_) => {
                    added += 1;
                },
                HunkLine::Removed(_) => {
                    removed += 1;
                },
                HunkLine::Context(_) => {},
            }
            i += 1;
        }
        proof {
            assert(self.hunk.lines@.subrange(0, self.hunk.lines@.len() as int) =~= self.hunk.lines@);
        }
        (added as isize) - (removed as isize)
    }

    /// Whether `line` continues this candidate's match.
    pub fn next_line_matches(&self, line: &str) -> (r: bool)
        ensures
            r == {
                let m = matchable_seq(self.hunk.lines@);
                self.current_line < m.len() && trim_spec(line_text(m[self.current_line as int]))
                    == trim_spec(line@)
            },
    {
        self.hunk.matches(line, self.current_line)
    }

    /// Whether every matchable line of the hunk has been matched.
    pub fn is_complete(&self) -> (r: bool)
        ensures
            r == (self.current_line == matchable_seq(self.hunk.lines@).len()),
    {
        let m = self.hunk.matchable_lines();
        self.current_line == m.len()
    }

    /// The corrected source-side header: where the match started, and how
    /// many source lines the hunk covers.
    pub fn updated_source_header(&self) -> (r: HeaderRange)
        requires
            matchable_seq(self.hunk.lines@).len() <= usize::MAX,
        ensures
            r.start == self.start,
            r.range == matchable_seq(self.hunk.lines@).len(),
    {
        let m = self.hunk.matchable_lines();
        HeaderRange { start: self.start, range: m.len() }
    }

    /// The corrected destination-side header: the start shifted by the
    /// offset of the preceding hunks (saturating at the `usize` bounds), and
    /// the added-plus-context line count.
    pub fn updated_dest_header(&self, offset: isize) -> (r: HeaderRange)
        ensures
            r.start == saturating_add_spec(self.start as int, offset as int),
            r.range == self.hunk.lines@.len() - removed_count(self.hunk.lines@),
    {
        let mut dest_lines: usize = 0;
        let mut i: usize = 0;
        proof {
            assert(self.hunk.lines@.subrange(0, 0) =~= Seq::<HunkLine>::empty());
        }
        while i < self.hunk.lines.len()
            invariant
                i <= self.hunk.lines@.len(),
                dest_lines == i - removed_count(self.hunk.lines@.subrange(0, i as int)),
                removed_count(self.hunk.lines@.subrange(0, i as int)) >= 0,
            decreases self.hunk.lines@.len() - i,
        {
            let ghost pre = self.hunk.lines@.subrange(0, i as int);
            let ghost post = self.hunk.lines@.subrange(0, i + 1 as int);
            proof {
                assert(post.subrange(0, post.len() - 1) =~= pre);
                assert(post[post.len() - 1] == self.hunk.lines@[i as int]);
                lemma_removed_count_bounds(self.hunk.lines@, i + 1);
            }
            match &self.hunk.lines[i] {
                HunkLine::Removed(_) => {},
                HunkLine::Added(_) => {
                    dest_lines += 1;
                },
                HunkLine::Context(_) => {
                    dest_lines += 1;
                },
            }
            i += 1;
        }
        proof {
            assert(self.hunk.lines@.subrange(0, self.hunk.lines@.len() as int) =~= self.hunk.lines@);
        }
        let dest_start = saturating_add(self.start, offset);
        HeaderRange { start: dest_start, range: dest_lines }
    }
}

proof fn lemma_removed_count_bounds(lines: Seq<HunkLine>, i: int)
    requires
        0 <= i <= lines.len(),
    ensures
        0 <= removed_count(lines.subrange(0, i)) <= i,
    decreases i,
{
    if i > 0 {
        lemma_removed_count_bounds(lines, i - 1);
        let t = lines.subrange(0, i);
        assert(t.subrange(0, t.len() - 1) =~= lines.subrange(0, i - 1));
    }
}

/// `a + b` clamped into the `usize` range.
pub open spec fn saturating_add_spec(a: int, b: int) -> int {
    if a + b < 0 {
        0
    } else if a + b > usize::MAX {
        usize::MAX as int
    } else {
        a + b
    }
}

/// Adds a signed offset to a `usize`, saturating at the bounds.
pub fn saturating_add(a: usize, b: isize) -> (r: usize)
    ensures
        r == saturating_add_spec(a as int, b as int),
{
    if b >= 0 {
        let bu = b as usize;
        if a <= usize::MAX - bu {
            a + bu
        } else {
            usize::MAX
        }
    } else {
        let m: i128 = -(b as i128);
        let mu = m as usize;
        if a >= mu {
            a - mu
        } else {
            0
        }
    }
}

/// Why a patch failed to parse.
#[derive(Clone, Copy, Debug, PartialEq, Eq, Structural)]
pub enum PatchParseError {
    /// The hunk does not begin with `@@`.
    NotAHunkHeader,
    /// The header line has fewer than four whitespace-separated parts.
    MalformedHeader,
    /// A `start,range` pair does not have exactly two fields.
    MalformedRange,
    /// A field of a `start,range` pair is not a decimal number in range.
    MalformedNumber,
}

/// The value of an all-digit field, when it has digits and fits a `usize`.
pub open spec fn parse_count(s: Seq<char>) -> Option<int> {
    if s.len() > 0 && all_digits(s) && dec_val(s) <= usize::MAX {
        Some(dec_val(s))
    } else {
        None
    }
}

/// A parsed `start,range` pair, the sign character stripped from the start
/// field.
pub open spec fn parse_range_spec(t: Seq<char>, sign: char) -> Option<(int, int)> {
    let fields = split_char_spec(t, ',');
    if fields.len() != 2 {
        None
    } else {
        match (parse_count(without_char(fields[0], sign)), parse_count(fields[1])) {
            (Some(a), Some(b)) => Some((a, b)),
            _ => None,
        }
    }
}

/// The two ranges of a hunk header line, when it is well formed: the header
/// starts with `@@` and its second and third whitespace-separated parts are
/// `start,range` pairs.
pub open spec fn parse_header_spec(s: Seq<char>) -> Option<((int, int), (int, int))> {
    if !starts_with_spec(s, "@@"@) {
        None
    } else {
        let tk = tokens_spec(s);
        if tk.len() < 4 {
            None
        } else {
            match (parse_range_spec(tk[1], '-'), parse_range_spec(tk[2], '+')) {
                (Some(o), Some(n)) => Some((o, n)),
                _ => None,
            }
        }
    }
}

impl HunkHeader {
    /// Parses a hunk header from the text of a hunk (only the leading line
    /// matters: the second and third whitespace-separated parts).
    pub fn parse(s: &str) -> (r: Result<HunkHeader, PatchParseError>)
        ensures
            (r is Ok) <==> (parse_header_spec(s@) is Some),
            r matches Ok(h) ==> parse_header_spec(s@) == Some(
                (
                    (h.source_range.start as int, h.source_range.range as int),
                    (h.dest_range.start as int, h.dest_range.range as int),
                ),
            ) && h.fixed_source_range is None && h.fixed_dest_range is None,
            r == Err::<HunkHeader, PatchParseError>(PatchParseError::NotAHunkHeader) <==> !starts_with_spec(
                s@,
                "@@"@,
            ),
            r == Err::<HunkHeader, PatchParseError>(PatchParseError::MalformedHeader) <==> (
            starts_with_spec(s@, "@@"@) && tokens_spec(s@).len() < 4),
    {
        if !text::starts_with(s, "@@") {
            return Err(PatchParseError::NotAHunkHeader);
        }
        let parts = text::split_whitespace(s);
        if parts.len() < 4 {
            return Err(PatchParseError::MalformedHeader);
        }
        proof {
            assert(parts@.map_values(|x: String| x@)[1] == tokens_spec(s@)[1]);
            assert(parts@.map_values(|x: String| x@)[2] == tokens_spec(s@)[2]);
        }
        let old_fields = text::split_char(parts[1].as_str(), ',');
        let new_fields = text::split_char(parts[2].as_str(), ',');
        if old_fields.len() != 2 || new_fields.len() != 2 {
            return Err(PatchParseError::MalformedRange);
        }
        proof {
            assert(old_fields@.map_values(|x: String| x@)[0] == split_char_spec(
                tokens_spec(s@)[1],
                ',',
            )[0]);
            assert(old_fields@.map_values(|x: String| x@)[1] == split_char_spec(
                tokens_spec(s@)[1],
                ',',
            )[1]);
            assert(new_fields@.map_values(|x: String| x@)[0] == split_char_spec(
                tokens_spec(s@)[2],
                ',',
            )[0]);
            assert(new_fields@.map_values(|x: String| x@)[1] == split_char_spec(
                tokens_spec(s@)[2],
                ',',
            )[1]);
        }
        let old_start_txt = text::remove_char(old_fields[0].as_str(), '-');
        let old_start = match text::parse_usize(old_start_txt.as_str()) {
            Some(v) => v,
            None => {
                return Err(PatchParseError::MalformedNumber);
            },
        };
        let old_range = match text::parse_usize(old_fields[1].as_str()) {
            Some(v) => v,
            None => {
                return Err(PatchParseError::MalformedNumber);
            },
        };
        let new_start_txt = text::remove_char(new_fields[0].as_str(), '+');
        let new_start = match text::parse_usize(new_start_txt.as_str()) {
            Some(v) => v,
            None => {
                return Err(PatchParseError::MalformedNumber);
            },
        };
        let new_range = match text::parse_usize(new_fields[1].as_str()) {
            Some(v) => v,
            None => {
                return Err(PatchParseError::MalformedNumber);
            },
        };
        Ok(
            HunkHeader {
                source_range: HeaderRange { start: old_start, range: old_range },
                dest_range: HeaderRange { start: new_start, range: new_range },
                fixed_source_range: None,
                fixed_dest_range: None,
            },
        )
    }
}

/// Relates the text of a hunk to its parsed form.
pub open spec fn hunk_parsed(src: Seq<char>, h: Hunk) -> bool {
    &&& match parse_header_spec(src) {
        Some(v) => {
            &&& h.header.source_range.start == v.0.0
            &&& h.header.source_range.range == v.0.1
            &&& h.header.dest_range.start == v.1.0
            &&& h.header.dest_range.range == v.1.1
        },
        None => false,
    }
    &&& h.header.fixed_source_range is None
    &&& h.header.fixed_dest_range is None
    &&& h.body@ == src
    &&& h.lines@.len() + 1 == lines_spec(src).len()
    &&& forall|i: int|
        0 <= i < h.lines@.len() ==> is_parsed_line(lines_spec(src)[i + 1], h.lines@[i])
}

impl Hunk {
    /// Parses one hunk: its header from the leading line, then each body
    /// line.
    pub fn parse(s: &str) -> (r: Result<Hunk, PatchParseError>)
        ensures
            (r is Ok) <==> (parse_header_spec(s@) is Some),
            r matches Ok(h) ==> hunk_parsed(s@, h),
    {
        let header = match HunkHeader::parse(s) {
            Ok(h) => h,
            Err(e) => {
                return Err(e);
            },
        };
        let src_lines = text::split_lines(s);
        proof {
            reveal_strlit("@@");
            assert(s@.len() >= 2);
            assert(lines_spec(s@).len() > 0) by {
                assert(src_lines@.map_values(|x: String| x@).len() == lines_spec(s@).len());
                if lines_spec(s@).len() == 0 {
                    assert(s@.len() == 0);
                }
            }
        }
        let mut lines: Vec<HunkLine> = Vec::new();
        let mut i: usize = 1;
        while i < src_lines.len()
            invariant
                1 <= i <= src_lines@.len(),
                src_lines@.map_values(|x: String| x@) == lines_spec(s@),
                lines@.len() == i - 1,
                forall|k: int| 0 <= k < lines@.len() ==> is_parsed_line(
                    lines_spec(s@)[k + 1],
                    lines@[k],
                ),
            decreases src_lines@.len() - i,
        {
            let l = HunkLine::parse(src_lines[i].as_str());
            proof {
                assert(src_lines@.map_values(|x: String| x@)[i as int] == src_lines@[i as int]@);
            }
            lines.push(l);
            i += 1;
        }
        Ok(Hunk { header, lines, body: text::copy_str(s) })
    }
}

/// Groups the lines of a patch into hunks: a line starting with `@@` opens a
/// hunk; lines before the first `@@` belong to none.  `cur` is the hunk being
/// collected.
pub open spec fn hunk_groups(ls: Seq<Seq<char>>, cur: Seq<Seq<char>>) -> Seq<Seq<Seq<char>>>
    decreases ls.len(),
{
    if ls.len() == 0 {
        if cur.len() == 0 {
            seq![]
        } else {
            seq![cur]
        }
    } else if starts_with_spec(ls[0], "@@"@) {
        if cur.len() == 0 {
            hunk_groups(ls.drop_first(), seq![ls[0]])
        } else {
            seq![cur] + hunk_groups(ls.drop_first(), seq![ls[0]])
        }
    } else if cur.len() > 0 {
        hunk_groups(ls.drop_first(), cur.push(ls[0]))
    } else {
        hunk_groups(ls.drop_first(), seq![])
    }
}

/// The hunks of `patch`, each as its sequence of source lines.
pub open spec fn patch_groups(patch: Seq<char>) -> Seq<Seq<Seq<char>>> {
    hunk_groups(lines_spec(patch), seq![])
}

/// The source text of one hunk group: its lines joined back with newlines.
pub open spec fn group_text(g: Seq<Seq<char>>) -> Seq<char> {
    text::join_spec(g, "\n"@)
}

/// Splits a patch into its parsed hunks; lines before the first `@@` are
/// ignored.  Fails exactly when some hunk's header does not parse.
pub fn parse_hunks(patch: &str) -> (r: Result<Vec<Hunk>, PatchParseError>)
    ensures
        (r is Ok) <==> (forall|k: int|
            0 <= k < patch_groups(patch@).len() ==> parse_header_spec(
                group_text(patch_groups(patch@)[k]),
            ) is Some),
        r matches Ok(hs) ==> hs@.len() == patch_groups(patch@).len() && (forall|k: int|
            0 <= k < hs@.len() ==> hunk_parsed(group_text(patch_groups(patch@)[k]), hs@[k])),
{
    let lines = text::split_lines(patch);
    let ghost all = lines@.map_values(|x: String| x@);
    let mut hunks: Vec<Hunk> = Vec::new();
    let mut current: Vec<String> = Vec::new();
    let ghost groups = patch_groups(patch@);
    let mut i: usize = 0;
    proof {
        assert(all.subrange(0, all.len() as int) =~= all);
        assert(current@.map_values(|x: String| x@) =~= Seq::<Seq<char>>::empty());
    }
    while i < lines.len()
        invariant
            all == lines@.map_values(|x: String| x@),
            groups == patch_groups(patch@),
            i <= lines@.len(),
            hunks@.len() <= groups.len(),
            groups =~= groups.subrange(0, hunks@.len() as int) + hunk_groups(
                all.subrange(i as int, all.len() as int),
                current@.map_values(|x: String| x@),
            ),
            forall|k: int| 0 <= k < hunks@.len() ==> hunk_parsed(group_text(groups[k]), hunks@[k]),
        decreases lines@.len() - i,
    {
        let ghost rest = all.subrange(i as int, all.len() as int);
        let ghost cur_v = current@.map_values(|x: String| x@);
        proof {
            assert(rest[0] == all[i as int]);
            assert(rest.drop_first() =~= all.subrange(i + 1 as int, all.len() as int));
            assert(all[i as int] == lines@[i as int]@);
        }
        let line = &lines[i];
        if text::starts_with(line.as_str(), "@@") {
            proof {
                assert(starts_with_spec(rest[0], "@@"@));
                if cur_v.len() == 0 {
                    assert(cur_v =~= Seq::<Seq<char>>::empty());
                    assert(hunk_groups(rest, cur_v) == hunk_groups(
                        rest.drop_first(),
                        seq![rest[0]],
                    ));
                } else {
                    assert(hunk_groups(rest, cur_v) == seq![cur_v] + hunk_groups(
                        rest.drop_first(),
                        seq![rest[0]],
                    ));
                }
            }
            if current.len() > 0 {
                let source = text::join(&current, "\n");
                let h = match Hunk::parse(source.as_str()) {
                    Ok(h) => h,
                    Err(e) => {
                        proof {
                            assert(groups[hunks@.len() as int] == cur_v);
                            assert(!(parse_header_spec(group_text(groups[hunks@.len() as int]))
                                is Some));
                        }
                        return Err(e);
                    },
                };
                let ghost n = hunks@.len() as int;
                hunks.push(h);
                proof {
                    assert(groups[n] == cur_v);
                    assert(groups.subrange(0, n + 1) =~= groups.subrange(0, n) + seq![cur_v]);
                }
            }
            let mut fresh: Vec<String> = Vec::new();
            fresh.push(line.clone());
            current = fresh;
            proof {
                assert(current@.map_values(|x: String| x@) =~= seq![all[i as int]]);
            }
        } else if current.len() > 0 {
            proof {
                assert(hunk_groups(rest, cur_v) == hunk_groups(
                    rest.drop_first(),
                    cur_v.push(rest[0]),
                ));
            }
            current.push(line.clone());
            proof {
                assert(current@.map_values(|x: String| x@) =~= cur_v.push(all[i as int]));
            }
        } else {
            proof {
                assert(cur_v =~= Seq::<Seq<char>>::empty());
                assert(hunk_groups(rest, cur_v) == hunk_groups(
                    rest.drop_first(),
                    Seq::<Seq<char>>::empty(),
                ));
            }
        }
        i += 1;
    }
    proof {
        assert(all.subrange(lines@.len() as int, all.len() as int) =~= Seq::<Seq<char>>::empty());
    }
    if current.len() > 0 {
        let source = text::join(&current, "\n");
        let h = match Hunk::parse(source.as_str()) {
            Ok(h) => h,
            Err(e) => {
                proof {
                    assert(groups[hunks@.len() as int] == current@.map_values(|x: String| x@));
                }
                return Err(e);
            },
        };
        let ghost n = hunks@.len() as int;
        hunks.push(h);
        proof {
            assert(groups[n] == current@.map_values(|x: String| x@));
            assert(groups.subrange(0, n + 1) =~= groups.subrange(0, n) + seq![groups[n]]);
            assert(groups.subrange(0, groups.len() as int) =~= groups);
        }
    } else {
        proof {
            assert(current@.map_values(|x: String| x@) =~= Seq::<Seq<char>>::empty());
            assert(groups.subrange(0, groups.len() as int) =~= groups);
        }
    }
    proof {
        assert(groups.len() == hunks@.len());
        assert forall|k: int| 0 <= k < groups.len() implies parse_header_spec(
            group_text(groups[k]),
        ) is Some by {
            assert(hunk_parsed(group_text(groups[k]), hunks@[k]));
        }
    }
    Ok(hunks)
}

/// Whether `line` is, after trimming, the `idx`-th matchable line of `h`.
pub open spec fn hunk_matches_line(h: Hunk, line: Seq<char>, idx: int) -> bool {
    let m = matchable_seq(h.lines@);
    0 <= idx < m.len() && trim_spec(line_text(m[idx])) == trim_spec(line)
}

/// Index of the first hunk whose first matchable line matches `line`; `-1`
/// when none does.
pub open spec fn first_matching_hunk(hunks: Seq<Hunk>, line: Seq<char>) -> int
    decreases hunks.len(),
{
    if hunks.len() == 0 {
        -1
    } else if hunk_matches_line(hunks[0], line, 0) {
        0
    } else {
        let r = first_matching_hunk(hunks.drop_first(), line);
        if r < 0 {
            -1
        } else {
            r + 1
        }
    }
}

proof fn lemma_first_matching_at(hunks: Seq<Hunk>, line: Seq<char>, k: int)
    requires
        0 <= k <= hunks.len(),
        forall|j: int| 0 <= j < k ==> !hunk_matches_line(hunks[j], line, 0),
        k == hunks.len() || hunk_matches_line(hunks[k], line, 0),
    ensures
        first_matching_hunk(hunks, line) == if k == hunks.len() {
            -1int
        } else {
            k
        },
    decreases k,
{
    if hunks.len() > 0 && k > 0 {
        lemma_first_matching_at(hunks.drop_first(), line, k - 1);
    }
}

/// A candidate's observable state: where it started, how far it has
/// matched, and the hunk it belongs to.
pub open spec fn cand_view(c: Candidate) -> (int, int, Hunk) {
    (c.start as int, c.current_line as int, *c.hunk)
}

/// One `retain` pass over the candidates for a new file line: a complete
/// candidate is kept, one whose next matchable line matches is advanced,
/// every other one is dropped.
pub open spec fn retain_step(cands: Seq<(int, int, Hunk)>, line: Seq<char>) -> Seq<
    (int, int, Hunk),
>
    decreases cands.len(),
{
    if cands.len() == 0 {
        seq![]
    } else {
        let c = cands[0];
        let rest = retain_step(cands.drop_first(), line);
        if c.1 == matchable_seq(c.2.lines@).len() {
            seq![c] + rest
        } else if hunk_matches_line(c.2, line, c.1) {
            seq![(c.0, c.1 + 1, c.2)] + rest
        } else {
            rest
        }
    }
}

proof fn lemma_retain_step_one(x: (int, int, Hunk), line: Seq<char>)
    ensures
        x.1 == matchable_seq(x.2.lines@).len() ==> retain_step(seq![x], line) == seq![x],
        x.1 != matchable_seq(x.2.lines@).len() && hunk_matches_line(x.2, line, x.1)
            ==> retain_step(seq![x], line) == seq![(x.0, x.1 + 1, x.2)],
        x.1 != matchable_seq(x.2.lines@).len() && !hunk_matches_line(x.2, line, x.1)
            ==> retain_step(seq![x], line) == Seq::<(int, int, Hunk)>::empty(),
{
    let single = seq![x];
    assert(single[0] == x);
    assert(single.drop_first() =~= Seq::<(int, int, Hunk)>::empty());
    assert(retain_step(single.drop_first(), line) =~= Seq::<(int, int, Hunk)>::empty());
    if x.1 == matchable_seq(x.2.lines@).len() {
        assert(retain_step(single, line) =~= seq![x]);
    } else if hunk_matches_line(x.2, line, x.1) {
        assert(retain_step(single, line) =~= seq![(x.0, x.1 + 1, x.2)]);
    } else {
        assert(retain_step(single, line) =~= Seq::<(int, int, Hunk)>::empty());
    }
}

proof fn lemma_retain_step_add(a: Seq<(int, int, Hunk)>, b: Seq<(int, int, Hunk)>, line: Seq<char>)
    ensures
        retain_step(a + b, line) == retain_step(a, line) + retain_step(b, line),
    decreases a.len(),
{
    if a.len() == 0 {
        assert(a + b =~= b);
        assert(retain_step(a, line) + retain_step(b, line) =~= retain_step(b, line));
    } else {
        lemma_retain_step_add(a.drop_first(), b, line);
        assert((a + b).drop_first() =~= a.drop_first() + b);
        assert((a + b)[0] == a[0]);
        assert(retain_step(a + b, line) =~= retain_step(a, line) + retain_step(b, line));
    }
}

/// The candidate set after the first `upto` lines of the file have been
/// scanned: for each line, a fresh candidate for the first hunk that opens
/// on it, then a retain pass.
pub open spec fn fold_candidates(hunks: Seq<Hunk>, lines: Seq<Seq<char>>, upto: int) -> Seq<
    (int, int, Hunk),
>
    decreases upto,
{
    if upto <= 0 {
        seq![]
    } else {
        let prev = fold_candidates(hunks, lines, upto - 1);
        let line = lines[upto - 1];
        let h = first_matching_hunk(hunks, line);
        let with_new = if h >= 0 {
            prev.push((upto - 1, 0, hunks[h]))
        } else {
            prev
        };
        retain_step(with_new, line)
    }
}

/// Scans the file for the places where each hunk matches.  The result is the
/// candidate set after every line of `content` has been scanned.
pub fn find_candidates<'a>(content: &str, hunks: &'a Vec<Hunk>) -> (r: Vec<Candidate<'a>>)
    ensures
        r@.map_values(|c: Candidate| cand_view(c)) == fold_candidates(
            hunks@,
            lines_spec(content@),
            lines_spec(content@).len() as int,
        ),
{
    let content_lines = text::split_lines(content);
    let ghost lviews = content_lines@.map_values(|x: String| x@);
    let mut candidates: Vec<Candidate<'a>> = Vec::new();
    let mut line_n: usize = 0;
    proof {
        assert(candidates@.map_values(|c: Candidate| cand_view(c)) =~= Seq::<
            (int, int, Hunk),
        >::empty());
    }
    while line_n < content_lines.len()
        invariant
            lviews == content_lines@.map_values(|x: String| x@),
            lviews == lines_spec(content@),
            line_n <= content_lines@.len(),
            candidates@.map_values(|c: Candidate| cand_view(c)) =~= fold_candidates(
                hunks@,
                lviews,
                line_n as int,
            ),
        decreases content_lines@.len() - line_n,
    {
        let line = &content_lines[line_n];
        proof {
            assert(lviews[line_n as int] == content_lines@[line_n as int]@);
        }
        let ghost prev = candidates@.map_values(|c: Candidate| cand_view(c));

        // 1. a hunk whose first matchable line matches opens a new candidate
        let mut h: usize = 0;
        while h < hunks.len() && !hunks[h].matches(line.as_str(), 0)
            invariant
                h <= hunks@.len(),
                forall|j: int| 0 <= j < h ==> !hunk_matches_line(hunks@[j], line@, 0),
            decreases hunks@.len() - h,
        {
            h += 1;
        }
        proof {
            lemma_first_matching_at(hunks@, line@, h as int);
        }
        if h < hunks.len() {
            candidates.push(Candidate::new(line_n, &hunks[h]));
            proof {
                assert(candidates@.map_values(|c: Candidate| cand_view(c)) =~= prev.push(
                    (line_n as int, 0, hunks@[h as int]),
                ));
            }
        }
        let ghost with_new = candidates@.map_values(|c: Candidate| cand_view(c));

        // 2. keep complete candidates, advance matching ones, drop the rest
        let mut kept: Vec<Candidate<'a>> = Vec::new();
        let mut ci: usize = 0;
        proof {
            assert(with_new.subrange(0, 0) =~= Seq::<(int, int, Hunk)>::empty());
            assert(kept@.map_values(|c: Candidate| cand_view(c)) =~= retain_step(
                with_new.subrange(0, 0),
                line@,
            ));
        }
        while ci < candidates.len()
            invariant
                with_new == candidates@.map_values(|c: Candidate| cand_view(c)),
                ci <= candidates@.len(),
                kept@.map_values(|c: Candidate| cand_view(c)) =~= retain_step(
                    with_new.subrange(0, ci as int),
                    line@,
                ),
            decreases candidates@.len() - ci,
        {
            let ghost kprev = kept@.map_values(|c: Candidate| cand_view(c));
            proof {
                assert(with_new.subrange(0, ci + 1 as int) =~= with_new.subrange(0, ci as int)
                    + seq![with_new[ci as int]]);
                lemma_retain_step_add(
                    with_new.subrange(0, ci as int),
                    seq![with_new[ci as int]],
                    line@,
                );
                assert(seq![with_new[ci as int]].drop_first() =~= Seq::<(int, int, Hunk)>::empty());
            }
            let mut c = candidates[ci];
            let ghost x = with_new[ci as int];
            proof {
                assert(x == cand_view(candidates@[ci as int]));
                assert(x == cand_view(c));
                lemma_retain_step_one(x, line@);
            }
            if c.is_complete() {
                kept.push(c);
                proof {
                    assert(x.1 == matchable_seq(x.2.lines@).len());
                    assert(kept@.map_values(|cc: Candidate| cand_view(cc)) =~= kprev.push(
                        cand_view(c),
                    ));
                    assert(retain_step(seq![x], line@) =~= seq![cand_view(c)]);
                }
            } else if c.next_line_matches(line.as_str()) {
                proof {
                    assert(x.1 != matchable_seq(x.2.lines@).len());
                    assert(hunk_matches_line(x.2, line@, x.1));
                }
                let m = c.hunk.matchable_lines();
                let mlen = m.len();
                assert(c.current_line < mlen);
                c.current_line += 1;
                kept.push(c);
                proof {
                    assert(cand_view(c) == (x.0, x.1 + 1, x.2));
                    assert(kept@.map_values(|cc: Candidate| cand_view(cc)) =~= kprev.push(
                        cand_view(c),
                    ));
                    assert(retain_step(seq![x], line@) =~= seq![cand_view(c)]);
                }
            } else {
                proof {
                    assert(x.1 != matchable_seq(x.2.lines@).len());
                    assert(!hunk_matches_line(x.2, line@, x.1));
                    assert(retain_step(seq![x], line@) =~= Seq::<(int, int, Hunk)>::empty());
                }
            }
            ci += 1;
        }
        proof {
            assert(with_new.subrange(0, candidates@.len() as int) =~= with_new);
        }
        candidates = kept;
        line_n += 1;
    }
    candidates
}

/// The line-number shift a hunk causes for the hunks after it.
pub open spec fn hunk_offset(h: Hunk) -> int {
    added_count(h.lines@) - removed_count(h.lines@)
}

/// The summed offsets of the first `k` candidates' hunks.
pub open spec fn offset_sum(cands: Seq<Candidate>, k: int) -> int
    decreases k,
{
    if k <= 0 {
        0
    } else {
        offset_sum(cands, k - 1) + hunk_offset(*cands[k - 1].hunk)
    }
}

proof fn lemma_matchable_len_le(lines: Seq<HunkLine>)
    ensures
        matchable_seq(lines).len() <= lines.len(),
    decreases lines.len(),
{
    if lines.len() > 0 {
        lemma_matchable_len_le(lines.subrange(0, lines.len() - 1));
    }
}

/// Relates a candidate and the offset of its predecessors to the hunk that
/// [`rebuild_hunks`] produces for it: the same hunk, with the corrected
/// ranges filled in.
pub open spec fn rebuilt_hunk(c: Candidate, off: int, h: Hunk) -> bool {
    &&& h.lines@ == c.hunk.lines@
    &&& h.body@ == c.hunk.body@
    &&& h.header.source_range == c.hunk.header.source_range
    &&& h.header.dest_range == c.hunk.header.dest_range
    &&& h.header.fixed_source_range == Some(
        HeaderRange {
            start: c.start,
            range: matchable_seq(c.hunk.lines@).len() as usize,
        },
    )
    &&& h.header.fixed_dest_range == Some(
        HeaderRange {
            start: saturating_add_spec(c.start as int, off) as usize,
            range: (c.hunk.lines@.len() - removed_count(c.hunk.lines@)) as usize,
        },
    )
}

impl Hunk {
    /// A field-for-field copy.
    pub fn duplicate(&self) -> (r: Hunk)
        ensures
            r.header == self.header,
            r.lines@ == self.lines@,
            r.body@ == self.body@,
    {
        let mut lines: Vec<HunkLine> = Vec::new();
        let mut i: usize = 0;
        while i < self.lines.len()
            invariant
                i <= self.lines@.len(),
                lines@ =~= self.lines@.subrange(0, i as int),
            decreases self.lines@.len() - i,
        {
            lines.push(self.lines[i].duplicate());
            proof {
                assert(lines@ =~= self.lines@.subrange(0, i + 1 as int));
            }
            i += 1;
        }
        proof {
            assert(self.lines@.subrange(0, self.lines@.len() as int) =~= self.lines@);
        }
        Hunk { header: self.header, lines, body: self.body.clone() }
    }
}

/// Rebuilds each candidate's hunk with corrected header ranges, carrying the
/// line-number offset from one hunk to the next.
pub fn rebuild_hunks(candidates: &Vec<Candidate>) -> (r: Vec<Hunk>)
    requires
        forall|k: int| 0 <= k < candidates@.len() ==> candidates@[k].hunk.lines@.len()
            <= isize::MAX,
        forall|k: int|
            0 <= k <= candidates@.len() ==> isize::MIN <= #[trigger] offset_sum(candidates@, k)
                <= isize::MAX,
    ensures
        r@.len() == candidates@.len(),
        forall|k: int|
            0 <= k < r@.len() ==> rebuilt_hunk(candidates@[k], offset_sum(candidates@, k), r@[k]),
{
    let mut current_offset: isize = 0;
    let mut hunks: Vec<Hunk> = Vec::new();
    let mut i: usize = 0;
    while i < candidates.len()
        invariant
            i <= candidates@.len(),
            forall|k: int| 0 <= k < candidates@.len() ==> candidates@[k].hunk.lines@.len()
                <= isize::MAX,
            forall|k: int|
                0 <= k <= candidates@.len() ==> isize::MIN <= #[trigger] offset_sum(
                    candidates@,
                    k,
                ) <= isize::MAX,
            current_offset == offset_sum(candidates@, i as int),
            hunks@.len() == i,
            forall|k: int|
                0 <= k < i ==> rebuilt_hunk(candidates@[k], offset_sum(candidates@, k), hunks@[k]),
        decreases candidates@.len() - i,
    {
        let candidate = &candidates[i];
        proof {
            lemma_matchable_len_le(candidate.hunk.lines@);
        }
        let source_header = candidate.updated_source_header();
        let dest_header = candidate.updated_dest_header(current_offset);
        let off = candidate.offset();
        proof {
            assert(offset_sum(candidates@, i + 1 as int) == offset_sum(candidates@, i as int)
                + hunk_offset(*candidates@[i as int].hunk));
        }
        current_offset = current_offset + off;
        let mut hunk = candidate.hunk.duplicate();
        hunk.header.fixed_source_range = Some(source_header);
        hunk.header.fixed_dest_range = Some(dest_header);
        hunks.push(hunk);
        i += 1;
    }
    hunks
}

/// A hunk line as it is printed back into a patch, newline included.
pub open spec fn patch_line_text(l: HunkLine) -> Seq<char> {
    match l {
        HunkLine::Context(s) => s@,
        HunkLine::Added(s) => "+"@ + s@,
        HunkLine::Removed(s) => "-"@ + s@,
    }
}

/// All body lines of a hunk printed back, each with its marker and newline.
pub open spec fn rendered_lines(lines: Seq<HunkLine>) -> Seq<char>
    decreases lines.len(),
{
    if lines.len() == 0 {
        seq![]
    } else {
        rendered_lines(lines.subrange(0, lines.len() - 1)) + patch_line_text(
            lines[lines.len() - 1],
        ) + "\n"@
    }
}

/// Index of the last occurrence of `sub` in `s` at a position `<= i`; `-1`
/// when there is none.
pub open spec fn rfind_from(s: Seq<char>, sub: Seq<char>, i: int) -> int
    decreases i + 1,
{
    if i < 0 {
        -1
    } else if matches_at(s, sub, i) {
        i
    } else {
        rfind_from(s, sub, i - 1)
    }
}

use crate::text::matches_at;

proof fn lemma_rfind_at(s: Seq<char>, sub: Seq<char>, top: int, i: int)
    requires
        i <= top,
        matches_at(s, sub, i),
        forall|j: int| j > i ==> !matches_at(s, sub, j),
    ensures
        rfind_from(s, sub, top) == i,
    decreases top - i,
{
    if top > i {
        lemma_rfind_at(s, sub, top - 1, i);
    }
}

proof fn lemma_rfind_none(s: Seq<char>, sub: Seq<char>, top: int)
    requires
        forall|j: int| !matches_at(s, sub, j),
    ensures
        rfind_from(s, sub, top) == -1,
    decreases top + 1,
{
    if top >= 0 {
        lemma_rfind_none(s, sub, top - 1);
    }
}

/// What follows the last occurrence of `sub` in `s`; all of `s` when `sub`
/// does not occur.
pub open spec fn tail_after_last(s: Seq<char>, sub: Seq<char>) -> Seq<char> {
    let i = rfind_from(s, sub, s.len() - sub.len());
    if i < 0 {
        s
    } else {
        s.subrange(i + sub.len(), s.len() as int)
    }
}

/// The first line of `s`, or empty when `s` has none.
pub open spec fn first_line_of(s: Seq<char>) -> Seq<char> {
    if lines_spec(s).len() == 0 {
        seq![]
    } else {
        lines_spec(s)[0]
    }
}

/// The corrected header line and body of a hunk, as [`Hunk::render_updated`]
/// prints them: the fixed ranges one-based, then whatever followed the last
/// `@@` of the original header line, then every body line with its marker.
pub open spec fn rendered_hunk(h: Hunk, fs: HeaderRange, fd: HeaderRange) -> Seq<char> {
    "@@ -"@ + dec_str_spec(fs.start + 1) + ","@ + dec_str_spec(fs.range as int) + " +"@
        + dec_str_spec(fd.start + 1) + ","@ + dec_str_spec(fd.range as int) + " @@"@
        + tail_after_last(first_line_of(h.body@), "@@"@) + "\n"@ + rendered_lines(h.lines@)
}

/// Rendering a hunk needs the corrected ranges.
#[derive(Clone, Copy, Debug, PartialEq, Eq, Structural)]
pub enum RenderError {
    FixedRangesMissing,
}

impl Hunk {
    /// Prints the hunk back with its corrected header; fails exactly when
    /// the corrected ranges have not been filled in.
    pub fn render_updated(&self) -> (r: Result<String, RenderError>)
        requires
            self.header.fixed_source_range matches Some(h) ==> h.start < usize::MAX,
            self.header.fixed_dest_range matches Some(h) ==> h.start < usize::MAX,
        ensures
            (r is Ok) <==> (self.header.fixed_source_range is Some
                && self.header.fixed_dest_range is Some),
            r matches Ok(out) ==> (match (
                self.header.fixed_source_range,
                self.header.fixed_dest_range,
            ) {
                (Some(fs), Some(fd)) => out@ == rendered_hunk(*self, fs, fd),
                _ => false,
            }),
    {
        let fs = match self.header.fixed_source_range {
            Some(h) => h,
            None => {
                return Err(RenderError::FixedRangesMissing);
            },
        };
        let fd = match self.header.fixed_dest_range {
            Some(h) => h,
            None => {
                return Err(RenderError::FixedRangesMissing);
            },
        };
        // the free-text context after the numbers of the original header line
        let body_lines = text::split_lines(self.body.as_str());
        let first: &str = if body_lines.len() > 0 {
            proof {
                assert(body_lines@.map_values(|x: String| x@)[0] == first_line_of(self.body@));
            }
            body_lines[0].as_str()
        } else {
            proof {
                reveal_strlit("");
                assert(""@ =~= first_line_of(self.body@));
            }
            ""
        };
        let first_len = first.unicode_len();
        let ctx: &str = match text::rfind_sub(first, "@@") {
            Some(i) => {
                proof {
                    reveal_strlit("@@");
                    lemma_rfind_at(first@, "@@"@, first@.len() - 2, i as int);
                }
                first.substring_char(i + 2, first_len)
            },
            None => {
                proof {
                    reveal_strlit("@@");
                    lemma_rfind_none(first@, "@@"@, first@.len() - 2);
                }
                first
            },
        };
        proof {
            assert(ctx@ == tail_after_last(first_line_of(self.body@), "@@"@));
        }
        let mut updated = String::from_str("@@ -");
        let n1 = text::usize_to_string(fs.start + 1);
        updated.append(n1.as_str());
        updated.append(",");
        let n2 = text::usize_to_string(fs.range);
        updated.append(n2.as_str());
        updated.append(" +");
        let n3 = text::usize_to_string(fd.start + 1);
        updated.append(n3.as_str());
        updated.append(",");
        let n4 = text::usize_to_string(fd.range);
        updated.append(n4.as_str());
        updated.append(" @@");
        updated.append(ctx);
        text::push_char(&mut updated, '\n');
        let ghost head = updated@;
        let mut i: usize = 0;
        proof {
            reveal_strlit("\n");
            assert("\n"@ =~= seq!['\n']);
            assert(head =~= rendered_hunk_head(*self));
            assert(rendered_lines(self.lines@.subrange(0, 0)) =~= Seq::<char>::empty());
            assert(updated@ =~= head + rendered_lines(self.lines@.subrange(0, 0)));
        }
        while i < self.lines.len()
            invariant
                i <= self.lines@.len(),
                updated@ =~= head + rendered_lines(self.lines@.subrange(0, i as int)),
                head == rendered_hunk_head(*self),
            decreases self.lines@.len() - i,
        {
            let pl = self.lines[i].as_patch_line();
            updated.append(pl.as_str());
            text::push_char(&mut updated, '\n');
            proof {
                reveal_strlit("\n");
                assert("\n"@ =~= seq!['\n']);
                let post = self.lines@.subrange(0, i + 1 as int);
                assert(post.subrange(0, post.len() - 1) =~= self.lines@.subrange(0, i as int));
                assert(post[post.len() - 1] == self.lines@[i as int]);
                assert(updated@ =~= head + rendered_lines(post));
            }
            i += 1;
        }
        proof {
            assert(self.lines@.subrange(0, self.lines@.len() as int) =~= self.lines@);
            assert(updated@ =~= rendered_hunk(*self, fs, fd));
        }
        Ok(updated)
    }
}

/// The rendered header line of a hunk, newline included, taken from its
/// corrected ranges.
pub open spec fn rendered_hunk_head(h: Hunk) -> Seq<char> {
    match (h.header.fixed_source_range, h.header.fixed_dest_range) {
        (Some(fs), Some(fd)) => "@@ -"@ + dec_str_spec(fs.start + 1) + ","@ + dec_str_spec(
            fs.range as int,
        ) + " +"@ + dec_str_spec(fd.start + 1) + ","@ + dec_str_spec(fd.range as int) + " @@"@
            + tail_after_last(first_line_of(h.body@), "@@"@) + "\n"@,
        _ => seq![],
    }
}

use crate::text::dec_str_spec;

/// What diffy computes when `patch` is applied to `base`: the patched text,
/// or `None` when the patch does not parse or does not apply.  The result
/// depends on the two texts alone.
pub uninterp spec fn patched_by(base: Seq<char>, patch: Seq<char>) -> Option<Seq<char>>;

/// Relies on `diffy::Patch::from_str` and `diffy::apply`: parsing and
/// applying a unified patch are functions of the two texts alone.
#[verifier::external_body]
pub fn apply_patch(base: &str, patch: &str) -> (r: Option<String>)
    ensures
        (r is Some) == (patched_by(base@, patch@) is Some),
        r matches Some(s) ==> patched_by(base@, patch@) == Some(s@),
{
    let parsed = match diffy::Patch::from_str(patch) {
        Ok(p) => p,
        Err(_) => {
            return None;
        },
    };
    diffy::apply(base, &parsed).ok()
}

} // verus!
