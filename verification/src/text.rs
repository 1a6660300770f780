//! Small verified helpers over `&str` and `String`.
//!
//! Strings are reasoned about through their `Seq<char>` views; every helper
//! states exactly what it computes over those views.

use vstd::prelude::*;

verus! {

/// True when `p` is a prefix of `s`.
pub open spec fn starts_with_spec(s: Seq<char>, p: Seq<char>) -> bool {
    p.len() <= s.len() && s.subrange(0, p.len() as int) == p
}

/// True when `p` is a suffix of `s`.
pub open spec fn ends_with_spec(s: Seq<char>, p: Seq<char>) -> bool {
    p.len() <= s.len() && s.subrange(s.len() - p.len(), s.len() as int) == p
}

/// Relies on `String::push`: appends one character at the end.
#[verifier::external_body]
pub fn push_char(s: &mut String, c: char)
    ensures
        final(s)@ == old(s)@.push(c),
{
    s.push(c);
}

/// Character-for-character string equality, stated over the views.
pub fn str_eq(a: &str, b: &str) -> (r: bool)
    ensures
        r == (a@ == b@),
{
    let a_len = a.unicode_len();
    let b_len = b.unicode_len();
    if a_len != b_len {
        assert(a@ != b@) by {
            assert(a@.len() != b@.len());
        }
        return false;
    }
    let mut i: usize = 0;
    while i < a_len
        invariant
            a_len == a@.len(),
            b_len == b@.len(),
            a_len == b_len,
            i <= a_len,
            forall|j: int| 0 <= j < i ==> a@[j] == b@[j],
        decreases a_len - i,
    {
        if a.get_char(i) != b.get_char(i) {
            return false;
        }
        i += 1;
    }
    proof {
        assert(a@ =~= b@);
    }
    true
}

/// True when `s` begins with the prefix `p`.
pub fn starts_with(s: &str, p: &str) -> (r: bool)
    ensures
        r == starts_with_spec(s@, p@),
{
    let s_len = s.unicode_len();
    let p_len = p.unicode_len();
    if p_len > s_len {
        return false;
    }
    let mut i: usize = 0;
    while i < p_len
        invariant
            s_len == s@.len(),
            p_len == p@.len(),
            p_len <= s_len,
            i <= p_len,
            forall|j: int| 0 <= j < i ==> s@[j] == p@[j],
        decreases p_len - i,
    {
        if s.get_char(i) != p.get_char(i) {
            assert(s@.subrange(0, p@.len() as int)[i as int] != p@[i as int]);
            return false;
        }
        i += 1;
    }
    proof {
        assert(s@.subrange(0, p@.len() as int) =~= p@);
    }
    true
}

/// True when `s` ends with the suffix `p`.
pub fn ends_with(s: &str, p: &str) -> (r: bool)
    ensures
        r == ends_with_spec(s@, p@),
{
    let s_len = s.unicode_len();
    let p_len = p.unicode_len();
    if p_len > s_len {
        return false;
    }
    let offset = s_len - p_len;
    let mut i: usize = 0;
    while i < p_len
        invariant
            s_len == s@.len(),
            p_len == p@.len(),
            p_len <= s_len,
            offset == s_len - p_len,
            i <= p_len,
            forall|j: int| 0 <= j < i ==> s@[offset + j] == p@[j],
        decreases p_len - i,
    {
        if s.get_char(offset + i) != p.get_char(i) {
            assert(s@.subrange(s@.len() - p@.len(), s@.len() as int)[i as int] != p@[i as int]);
            return false;
        }
        i += 1;
    }
    proof {
        assert(s@.subrange(s@.len() - p@.len(), s@.len() as int) =~= p@);
    }
    true
}

/// Copies a string into an owned `String`, one character at a time.
pub fn copy_str(s: &str) -> (r: String)
    ensures
        r@ == s@,
{
    let len = s.unicode_len();
    let mut out = String::new();
    let mut i: usize = 0;
    while i < len
        invariant
            len == s@.len(),
            i <= len,
            out@ == s@.subrange(0, i as int),
        decreases len - i,
    {
        push_char(&mut out, s.get_char(i));
        proof {
            assert(out@ =~= s@.subrange(0, i + 1 as int));
        }
        i += 1;
    }
    proof {
        assert(s@.subrange(0, s@.len() as int) =~= s@);
    }
    out
}

/// ASCII whitespace, the only whitespace this library's inputs carry.
pub open spec fn is_ws(c: char) -> bool {
    c == ' ' || c == '\t' || c == '\n' || c == '\r'
}

/// Executable test for [`is_ws`].
pub fn char_is_ws(c: char) -> (r: bool)
    ensures
        r == is_ws(c),
{
    c == ' ' || c == '\t' || c == '\n' || c == '\r'
}

/// `s` without its leading whitespace.
pub open spec fn drop_leading_ws(s: Seq<char>) -> Seq<char>
    decreases s.len(),
{
    if s.len() > 0 && is_ws(s[0]) {
        drop_leading_ws(s.subrange(1, s.len() as int))
    } else {
        s
    }
}

/// `s` without its trailing whitespace.
pub open spec fn drop_trailing_ws(s: Seq<char>) -> Seq<char>
    decreases s.len(),
{
    if s.len() > 0 && is_ws(s[s.len() - 1]) {
        drop_trailing_ws(s.subrange(0, s.len() - 1))
    } else {
        s
    }
}

/// `s` without leading and trailing whitespace.
pub open spec fn trim_spec(s: Seq<char>) -> Seq<char> {
    drop_trailing_ws(drop_leading_ws(s))
}

proof fn lemma_drop_leading_skip(s: Seq<char>, k: int)
    requires
        0 <= k <= s.len(),
        forall|j: int| 0 <= j < k ==> is_ws(s[j]),
    ensures
        drop_leading_ws(s) == drop_leading_ws(s.subrange(k, s.len() as int)),
    decreases k,
{
    if k > 0 {
        let t = s.subrange(1, s.len() as int);
        lemma_drop_leading_skip(t, k - 1);
        assert(t.subrange(k - 1, t.len() as int) =~= s.subrange(k, s.len() as int));
    } else {
        assert(s.subrange(0, s.len() as int) =~= s);
    }
}

proof fn lemma_drop_trailing_skip(s: Seq<char>, k: int)
    requires
        0 <= k <= s.len(),
        forall|j: int| k <= j < s.len() ==> is_ws(s[j]),
    ensures
        drop_trailing_ws(s) == drop_trailing_ws(s.subrange(0, k)),
    decreases s.len() - k,
{
    if k < s.len() {
        let t = s.subrange(0, s.len() - 1);
        lemma_drop_trailing_skip(t, k);
        assert(t.subrange(0, k) =~= s.subrange(0, k));
    } else {
        assert(s.subrange(0, s.len() as int) =~= s);
    }
}

/// `s` with ASCII whitespace removed from both ends.
pub fn trim(s: &str) -> (r: &str)
    ensures
        r@ == trim_spec(s@),
{
    let len = s.unicode_len();
    let mut a: usize = 0;
    while a < len && char_is_ws(s.get_char(a))
        invariant
            len == s@.len(),
            a <= len,
            forall|j: int| 0 <= j < a ==> is_ws(s@[j]),
        decreases len - a,
    {
        a += 1;
    }
    if a == len {
        proof {
            lemma_drop_leading_skip(s@, len as int);
            assert(s@.subrange(len as int, s@.len() as int) =~= Seq::<char>::empty());
        }
        let r = s.substring_char(len, len);
        return r;
    }
    let mut b: usize = len;
    while char_is_ws(s.get_char(b - 1))
        invariant
            len == s@.len(),
            a < len,
            !is_ws(s@[a as int]),
            a + 1 <= b <= len,
            forall|j: int| b <= j < len ==> is_ws(s@[j]),
        decreases b,
    {
        b -= 1;
    }
    let r = s.substring_char(a, b);
    proof {
        lemma_drop_leading_skip(s@, a as int);
        let t = s@.subrange(a as int, len as int);
        assert(drop_leading_ws(t) == t);
        lemma_drop_trailing_skip(t, b - a);
        assert(t.subrange(0, b - a) =~= s@.subrange(a as int, b as int));
        let u = s@.subrange(a as int, b as int);
        assert(drop_trailing_ws(u) == u);
    }
    r
}

/// True when `sub` occurs in `s` starting at position `i`.
pub open spec fn matches_at(s: Seq<char>, sub: Seq<char>, i: int) -> bool {
    0 <= i && i + sub.len() <= s.len() && s.subrange(i, i + sub.len()) == sub
}

fn matches_at_exec(s: &str, sub: &str, i: usize) -> (r: bool)
    requires
        i + sub@.len() <= s@.len(),
    ensures
        r == matches_at(s@, sub@, i as int),
{
    let s_len = s.unicode_len();
    let sub_len = sub.unicode_len();
    let mut j: usize = 0;
    while j < sub_len
        invariant
            s_len == s@.len(),
            sub_len == sub@.len(),
            i + sub_len <= s_len,
            j <= sub_len,
            forall|k: int| 0 <= k < j ==> s@[i + k] == sub@[k],
        decreases sub_len - j,
    {
        if s.get_char(i + j) != sub.get_char(j) {
            assert(s@.subrange(i as int, i + sub@.len())[j as int] != sub@[j as int]);
            return false;
        }
        j += 1;
    }
    proof {
        assert(s@.subrange(i as int, i + sub@.len()) =~= sub@);
    }
    true
}

/// Position of the first occurrence of `sub` in `s`, if any.
pub fn find_sub(s: &str, sub: &str) -> (r: Option<usize>)
    ensures
        match r {
            Some(i) => matches_at(s@, sub@, i as int) && forall|j: int|
                0 <= j < i ==> !matches_at(s@, sub@, j),
            None => forall|j: int| !matches_at(s@, sub@, j),
        },
{
    let s_len = s.unicode_len();
    let sub_len = sub.unicode_len();
    if sub_len > s_len {
        return None;
    }
    let last = s_len - sub_len;
    let mut i: usize = 0;
    loop
        invariant
            s_len == s@.len(),
            sub_len == sub@.len(),
            sub_len <= s_len,
            last == s_len - sub_len,
            i <= last,
            forall|j: int| 0 <= j < i ==> !matches_at(s@, sub@, j),
        decreases last - i,
    {
        if matches_at_exec(s, sub, i) {
            return Some(i);
        }
        if i == last {
            assert(forall|j: int| j > last ==> !matches_at(s@, sub@, j));
            return None;
        }
        i += 1;
    }
}

/// Position of the last occurrence of `sub` in `s`, if any.
pub fn rfind_sub(s: &str, sub: &str) -> (r: Option<usize>)
    ensures
        match r {
            Some(i) => matches_at(s@, sub@, i as int) && forall|j: int|
                j > i ==> !matches_at(s@, sub@, j),
            None => forall|j: int| !matches_at(s@, sub@, j),
        },
{
    let s_len = s.unicode_len();
    let sub_len = sub.unicode_len();
    if sub_len > s_len {
        return None;
    }
    let last = s_len - sub_len;
    let mut i: usize = last;
    loop
        invariant
            s_len == s@.len(),
            sub_len == sub@.len(),
            sub_len <= s_len,
            last == s_len - sub_len,
            i <= last,
            forall|j: int| i < j ==> !matches_at(s@, sub@, j),
        decreases i,
    {
        if matches_at_exec(s, sub, i) {
            return Some(i);
        }
        if i == 0 {
            assert(forall|j: int| !matches_at(s@, sub@, j));
            return None;
        }
        i -= 1;
    }
}

/// True when `sub` occurs somewhere in `s`.
pub fn contains_sub(s: &str, sub: &str) -> (r: bool)
    ensures
        r == exists|i: int| matches_at(s@, sub@, i),
{
    match find_sub(s, sub) {
        Some(i) => {
            assert(matches_at(s@, sub@, i as int));
            true
        },
        None => false,
    }
}

/// Index of the first character of `s` satisfying `newline == true ? c is the
/// searched character : ...`; `-1` when there is none.
pub open spec fn find_index(s: Seq<char>, c: char) -> int
    decreases s.len(),
{
    if s.len() == 0 {
        -1
    } else if s[0] == c {
        0
    } else {
        let r = find_index(s.subrange(1, s.len() as int), c);
        if r < 0 {
            -1
        } else {
            r + 1
        }
    }
}

proof fn lemma_find_index_at(s: Seq<char>, c: char, k: int)
    requires
        0 <= k <= s.len(),
        forall|j: int| 0 <= j < k ==> s[j] != c,
        k == s.len() || s[k] == c,
    ensures
        find_index(s, c) == if k == s.len() {
            -1int
        } else {
            k
        },
    decreases k,
{
    if s.len() > 0 && k > 0 {
        let t = s.subrange(1, s.len() as int);
        lemma_find_index_at(t, c, k - 1);
    }
}

/// The pieces of `s` between occurrences of the separator `c`; empty pieces
/// are kept, as `str::split` keeps them.
pub open spec fn split_char_spec(s: Seq<char>, c: char) -> Seq<Seq<char>>
    decreases s.len(),
{
    let i = find_index(s, c);
    if !(0 <= i < s.len()) {
        seq![s]
    } else {
        seq![s.subrange(0, i)] + split_char_spec(s.subrange(i + 1, s.len() as int), c)
    }
}

/// Splits `s` on the separator character `c`, keeping empty pieces.
pub fn split_char(s: &str, c: char) -> (r: Vec<String>)
    ensures
        r@.map_values(|x: String| x@) == split_char_spec(s@, c),
{
    let len = s.unicode_len();
    let mut out: Vec<String> = Vec::new();
    let mut start: usize = 0;
    proof {
        assert(s@.subrange(0, len as int) =~= s@);
        assert(out@.map_values(|x: String| x@) =~= Seq::<Seq<char>>::empty());
    }
    loop
        invariant
            len == s@.len(),
            start <= len,
            split_char_spec(s@, c) =~= out@.map_values(|x: String| x@) + split_char_spec(
                s@.subrange(start as int, len as int),
                c,
            ),
        decreases len - start,
    {
        let ghost rest = s@.subrange(start as int, len as int);
        let mut i = start;
        while i < len && s.get_char(i) != c
            invariant
                len == s@.len(),
                start <= i <= len,
                forall|j: int| start <= j < i ==> s@[j] != c,
            decreases len - i,
        {
            i += 1;
        }
        proof {
            assert(forall|j: int| 0 <= j < i - start ==> rest[j] != c);
            if i < len {
                assert(rest[i - start] == c);
            }
            lemma_find_index_at(rest, c, i - start);
        }
        let piece = String::from_str(s.substring_char(start, i));
        proof {
            assert(piece@ =~= rest.subrange(0, i - start));
        }
        let ghost prev = out@.map_values(|x: String| x@);
        out.push(piece);
        proof {
            assert(out@.map_values(|x: String| x@) =~= prev + seq![piece@]);
        }
        if i == len {
            proof {
                assert(rest =~= piece@);
            }
            return out;
        } else {
            proof {
                assert(rest.subrange(i - start + 1, rest.len() as int) =~= s@.subrange(
                    i + 1 as int,
                    len as int,
                ));
            }
            start = i + 1;
        }
    }
}

/// A split-off line with a trailing carriage return removed, as `str::lines`
/// removes it at a line feed.
pub open spec fn line_content(l: Seq<char>) -> Seq<char> {
    if l.len() > 0 && l[l.len() - 1] == '\r' {
        l.subrange(0, l.len() - 1)
    } else {
        l
    }
}

/// The lines of `s`: split at `'\n'`, a `'\r'` before the split removed, and
/// no empty final line for a trailing newline.
pub open spec fn lines_spec(s: Seq<char>) -> Seq<Seq<char>>
    decreases s.len(),
{
    if s.len() == 0 {
        seq![]
    } else {
        let i = find_index(s, '\n');
        if !(0 <= i < s.len()) {
            seq![s]
        } else {
            seq![line_content(s.subrange(0, i))] + lines_spec(s.subrange(i + 1, s.len() as int))
        }
    }
}

/// Splits `s` into its lines, as [`lines_spec`] describes them.
pub fn split_lines(s: &str) -> (r: Vec<String>)
    ensures
        r@.map_values(|x: String| x@) == lines_spec(s@),
{
    let len = s.unicode_len();
    let mut out: Vec<String> = Vec::new();
    let mut start: usize = 0;
    proof {
        assert(s@.subrange(0, len as int) =~= s@);
        assert(out@.map_values(|x: String| x@) =~= Seq::<Seq<char>>::empty());
    }
    loop
        invariant
            len == s@.len(),
            start <= len,
            lines_spec(s@) =~= out@.map_values(|x: String| x@) + lines_spec(
                s@.subrange(start as int, len as int),
            ),
        decreases len - start,
    {
        if start == len {
            proof {
                assert(s@.subrange(start as int, len as int) =~= Seq::<char>::empty());
            }
            return out;
        }
        let ghost rest = s@.subrange(start as int, len as int);
        let mut i = start;
        while i < len && s.get_char(i) != '\n'
            invariant
                len == s@.len(),
                start <= i <= len,
                forall|j: int| start <= j < i ==> s@[j] != '\n',
            decreases len - i,
        {
            i += 1;
        }
        proof {
            assert(forall|j: int| 0 <= j < i - start ==> rest[j] != '\n');
            if i < len {
                assert(rest[i - start] == '\n');
            }
            lemma_find_index_at(rest, '\n', i - start);
        }
        let ghost prev = out@.map_values(|x: String| x@);
        if i == len {
            let piece = String::from_str(s.substring_char(start, i));
            proof {
                assert(piece@ =~= rest);
            }
            out.push(piece);
            proof {
                assert(out@.map_values(|x: String| x@) =~= prev + seq![piece@]);
            }
            return out;
        }
        let piece = if i > start && s.get_char(i - 1) == '\r' {
            String::from_str(s.substring_char(start, i - 1))
        } else {
            String::from_str(s.substring_char(start, i))
        };
        proof {
            let cut = rest.subrange(0, i - start);
            assert(cut.len() > 0 ==> cut[cut.len() - 1] == s@[i - 1]);
            if i > start && s@[i - 1] == '\r' {
                assert(piece@ =~= cut.subrange(0, cut.len() - 1));
            } else {
                assert(piece@ =~= cut);
            }
            assert(piece@ == line_content(cut));
        }
        out.push(piece);
        proof {
            assert(out@.map_values(|x: String| x@) =~= prev + seq![piece@]);
            assert(rest.subrange(i - start + 1, rest.len() as int) =~= s@.subrange(
                i + 1 as int,
                len as int,
            ));
        }
        start = i + 1;
    }
}

/// Index of the first whitespace character of `s`; `-1` when there is none.
pub open spec fn find_ws_index(s: Seq<char>) -> int
    decreases s.len(),
{
    if s.len() == 0 {
        -1
    } else if is_ws(s[0]) {
        0
    } else {
        let r = find_ws_index(s.subrange(1, s.len() as int));
        if r < 0 {
            -1
        } else {
            r + 1
        }
    }
}

proof fn lemma_find_ws_index_at(s: Seq<char>, k: int)
    requires
        0 <= k <= s.len(),
        forall|j: int| 0 <= j < k ==> !is_ws(s[j]),
        k == s.len() || is_ws(s[k]),
    ensures
        find_ws_index(s) == if k == s.len() {
            -1int
        } else {
            k
        },
    decreases k,
{
    if s.len() > 0 && k > 0 {
        let t = s.subrange(1, s.len() as int);
        lemma_find_ws_index_at(t, k - 1);
    }
}

/// The whitespace-separated tokens of `s`, as `str::split_whitespace` yields
/// them: maximal runs of non-whitespace, no empty tokens.
pub open spec fn tokens_spec(s: Seq<char>) -> Seq<Seq<char>>
    decreases s.len(),
{
    if s.len() == 0 {
        seq![]
    } else if is_ws(s[0]) {
        tokens_spec(s.subrange(1, s.len() as int))
    } else {
        let i = find_ws_index(s);
        if !(0 <= i < s.len()) {
            seq![s]
        } else {
            seq![s.subrange(0, i)] + tokens_spec(s.subrange(i, s.len() as int))
        }
    }
}

proof fn lemma_tokens_skip_ws(s: Seq<char>, k: int)
    requires
        0 <= k <= s.len(),
        forall|j: int| 0 <= j < k ==> is_ws(s[j]),
    ensures
        tokens_spec(s) == tokens_spec(s.subrange(k, s.len() as int)),
    decreases k,
{
    if k > 0 {
        let t = s.subrange(1, s.len() as int);
        lemma_tokens_skip_ws(t, k - 1);
        assert(t.subrange(k - 1, t.len() as int) =~= s.subrange(k, s.len() as int));
    } else {
        assert(s.subrange(0, s.len() as int) =~= s);
    }
}

/// Splits `s` into whitespace-separated tokens.
pub fn split_whitespace(s: &str) -> (r: Vec<String>)
    ensures
        r@.map_values(|x: String| x@) == tokens_spec(s@),
{
    let len = s.unicode_len();
    let mut out: Vec<String> = Vec::new();
    let mut start: usize = 0;
    proof {
        assert(s@.subrange(0, len as int) =~= s@);
        assert(out@.map_values(|x: String| x@) =~= Seq::<Seq<char>>::empty());
    }
    loop
        invariant
            len == s@.len(),
            start <= len,
            tokens_spec(s@) =~= out@.map_values(|x: String| x@) + tokens_spec(
                s@.subrange(start as int, len as int),
            ),
        decreases len - start,
    {
        // skip the whitespace run in front of the next token
        let ghost pre = s@.subrange(start as int, len as int);
        let ghost skip_from = start;
        while start < len && char_is_ws(s.get_char(start))
            invariant
                len == s@.len(),
                skip_from <= start <= len,
                forall|j: int| skip_from <= j < start ==> is_ws(s@[j]),
            decreases len - start,
        {
            start += 1;
        }
        proof {
            assert(forall|j: int| 0 <= j < start - skip_from ==> is_ws(pre[j]));
            lemma_tokens_skip_ws(pre, start - skip_from);
            assert(pre.subrange(start - skip_from, pre.len() as int) =~= s@.subrange(
                start as int,
                len as int,
            ));
        }
        if start == len {
            proof {
                assert(s@.subrange(start as int, len as int) =~= Seq::<char>::empty());
            }
            return out;
        }
        let ghost rest = s@.subrange(start as int, len as int);
        let mut i = start;
        while i < len && !char_is_ws(s.get_char(i))
            invariant
                len == s@.len(),
                start <= i <= len,
                forall|j: int| start <= j < i ==> !is_ws(s@[j]),
            decreases len - i,
        {
            i += 1;
        }
        proof {
            assert(forall|j: int| 0 <= j < i - start ==> !is_ws(rest[j]));
            if i < len {
                assert(is_ws(rest[i - start]));
            }
            lemma_find_ws_index_at(rest, i - start);
        }
        let piece = String::from_str(s.substring_char(start, i));
        proof {
            assert(piece@ =~= rest.subrange(0, i - start));
        }
        let ghost prev = out@.map_values(|x: String| x@);
        out.push(piece);
        proof {
            assert(out@.map_values(|x: String| x@) =~= prev + seq![piece@]);
            assert(rest.subrange(i - start, rest.len() as int) =~= s@.subrange(
                i as int,
                len as int,
            ));
            if i == start {
                assert(false);
            }
        }
        start = i;
    }
}

/// The parts joined with `sep` between each neighbouring pair.
pub open spec fn join_spec(parts: Seq<Seq<char>>, sep: Seq<char>) -> Seq<char>
    decreases parts.len(),
{
    if parts.len() == 0 {
        seq![]
    } else if parts.len() == 1 {
        parts[0]
    } else {
        parts[0] + sep + join_spec(parts.subrange(1, parts.len() as int), sep)
    }
}

proof fn lemma_join_push(parts: Seq<Seq<char>>, sep: Seq<char>, x: Seq<char>)
    ensures
        join_spec(parts.push(x), sep) == if parts.len() == 0 {
            x
        } else {
            join_spec(parts, sep) + sep + x
        },
    decreases parts.len(),
{
    if parts.len() == 0 {
        assert(parts.push(x)[0] == x);
    } else if parts.len() == 1 {
        assert(parts.push(x).subrange(1, 2) =~= seq![x]);
        assert(join_spec(seq![x], sep) == x);
    } else {
        let tail = parts.subrange(1, parts.len() as int);
        lemma_join_push(tail, sep, x);
        assert(parts.push(x).subrange(1, parts.len() as int + 1) =~= tail.push(x));
    }
}

/// Joins the parts with `sep` between each neighbouring pair.
pub fn join(parts: &Vec<String>, sep: &str) -> (r: String)
    ensures
        r@ == join_spec(parts@.map_values(|x: String| x@), sep@),
{
    let ghost views = parts@.map_values(|x: String| x@);
    let mut out = String::new();
    let mut i: usize = 0;
    proof {
        assert(views.subrange(0, 0) =~= Seq::<Seq<char>>::empty());
    }
    while i < parts.len()
        invariant
            views == parts@.map_values(|x: String| x@),
            i <= parts@.len(),
            out@ == join_spec(views.subrange(0, i as int), sep@),
        decreases parts@.len() - i,
    {
        if i > 0 {
            out.append(sep);
        }
        out.append(parts[i].as_str());
        proof {
            lemma_join_push(views.subrange(0, i as int), sep@, views[i as int]);
            assert(views.subrange(0, i as int).push(views[i as int]) =~= views.subrange(
                0,
                i + 1 as int,
            ));
        }
        i += 1;
    }
    proof {
        assert(views.subrange(0, views.len() as int) =~= views);
    }
    out
}

/// An ASCII decimal digit.
pub open spec fn is_digit(c: char) -> bool {
    48 <= c as u32 <= 57
}

/// The numeric value of an ASCII decimal digit.
pub open spec fn digit_val(c: char) -> int {
    c as u32 - 48
}

/// True when every character of `s` is a decimal digit.
pub open spec fn all_digits(s: Seq<char>) -> bool {
    forall|j: int| 0 <= j < s.len() ==> is_digit(s[j])
}

/// The value of `s` read as a decimal number.
pub open spec fn dec_val(s: Seq<char>) -> int
    decreases s.len(),
{
    if s.len() == 0 {
        0
    } else {
        dec_val(s.subrange(0, s.len() - 1)) * 10 + digit_val(s[s.len() - 1])
    }
}

/// Parses `s` as a decimal `usize`: `Some` exactly on a non-empty all-digit
/// string whose value fits.
pub fn parse_usize(s: &str) -> (r: Option<usize>)
    ensures
        match r {
            Some(v) => s@.len() > 0 && all_digits(s@) && v == dec_val(s@),
            None => s@.len() == 0 || !all_digits(s@) || dec_val(s@) > usize::MAX,
        },
{
    let len = s.unicode_len();
    if len == 0 {
        return None;
    }
    let mut acc: u128 = 0;
    let mut i: usize = 0;
    proof {
        assert(s@.subrange(0, 0) =~= Seq::<char>::empty());
    }
    while i < len
        invariant
            len == s@.len(),
            i <= len,
            all_digits(s@.subrange(0, i as int)),
            dec_val(s@.subrange(0, i as int)) <= usize::MAX ==> acc == dec_val(
                s@.subrange(0, i as int),
            ),
            dec_val(s@.subrange(0, i as int)) > usize::MAX ==> acc > usize::MAX as u128,
            acc <= (usize::MAX as u128) * 10 + 9,
        decreases len - i,
    {
        let c = s.get_char(i);
        let u = c as u32;
        if u < 48 || u > 57 {
            assert(!is_digit(s@[i as int]));
            return None;
        }
        let d = (u - 48) as u128;
        let ghost old_prefix = s@.subrange(0, i as int);
        let ghost new_prefix = s@.subrange(0, i + 1 as int);
        proof {
            assert(new_prefix.subrange(0, new_prefix.len() - 1) =~= old_prefix);
            assert(new_prefix[new_prefix.len() - 1] == s@[i as int]);
            assert(dec_val(new_prefix) == dec_val(old_prefix) * 10 + digit_val(s@[i as int]));
        }
        if acc <= usize::MAX as u128 {
            acc = acc * 10 + d;
        } else {
            proof {
                assert(dec_val(old_prefix) > usize::MAX);
                assert(dec_val(new_prefix) >= dec_val(old_prefix) * 10);
                assert(dec_val(new_prefix) > usize::MAX);
            }
        }
        i += 1;
    }
    proof {
        assert(s@.subrange(0, len as int) =~= s@);
    }
    if acc <= usize::MAX as u128 {
        Some(acc as usize)
    } else {
        None
    }
}

/// The character for a decimal digit value.
pub open spec fn dec_digit_char(d: int) -> char {
    ((48 + d) as u8) as char
}

/// The decimal digits of `n`, most significant first.
pub open spec fn dec_str_spec(n: int) -> Seq<char>
    decreases n,
{
    if n < 10 {
        seq![dec_digit_char(n)]
    } else {
        dec_str_spec(n / 10).push(dec_digit_char(n % 10))
    }
}

/// Appends the decimal rendering of `n` to `out`.
pub fn push_decimal(out: &mut String, n: usize)
    ensures
        final(out)@ == old(out)@ + dec_str_spec(n as int),
    decreases n,
{
    if n >= 10 {
        push_decimal(out, n / 10);
        let d: u8 = (n % 10) as u8 + 48;
        let c = d as char;
        assert(c == dec_digit_char(n as int % 10));
        push_char(out, c);
        proof {
            assert(old(out)@ + dec_str_spec(n as int) =~= (old(out)@ + dec_str_spec(
                n as int / 10,
            )).push(dec_digit_char(n as int % 10)));
        }
    } else {
        let d: u8 = n as u8 + 48;
        let c = d as char;
        assert(c == dec_digit_char(n as int));
        push_char(out, c);
        proof {
            assert(old(out)@ + dec_str_spec(n as int) =~= old(out)@.push(dec_digit_char(n as int)));
        }
    }
}

/// The decimal rendering of `n`.
pub fn usize_to_string(n: usize) -> (r: String)
    ensures
        r@ == dec_str_spec(n as int),
{
    let mut out = String::new();
    push_decimal(&mut out, n);
    proof {
        assert(Seq::<char>::empty() + dec_str_spec(n as int) =~= dec_str_spec(n as int));
    }
    out
}

/// `s` with every occurrence of `c` removed, built from the left.
pub open spec fn without_char(s: Seq<char>, c: char) -> Seq<char>
    decreases s.len(),
{
    if s.len() == 0 {
        seq![]
    } else {
        without_char(s.subrange(0, s.len() - 1), c) + (if s[s.len() - 1] == c {
            seq![]
        } else {
            seq![s[s.len() - 1]]
        })
    }
}

/// Removes every occurrence of `c` from `s`.
pub fn remove_char(s: &str, c: char) -> (r: String)
    ensures
        r@ == without_char(s@, c),
{
    let len = s.unicode_len();
    let mut out = String::new();
    let mut i: usize = 0;
    proof {
        assert(s@.subrange(0, 0) =~= Seq::<char>::empty());
    }
    while i < len
        invariant
            len == s@.len(),
            i <= len,
            out@ == without_char(s@.subrange(0, i as int), c),
        decreases len - i,
    {
        let ch = s.get_char(i);
        let ghost old_prefix = s@.subrange(0, i as int);
        let ghost new_prefix = s@.subrange(0, i + 1 as int);
        proof {
            assert(new_prefix.subrange(0, new_prefix.len() - 1) =~= old_prefix);
            assert(new_prefix[new_prefix.len() - 1] == s@[i as int]);
        }
        if ch != c {
            push_char(&mut out, ch);
            proof {
                assert(out@ =~= without_char(new_prefix, c));
            }
        } else {
            proof {
                assert(out@ =~= without_char(new_prefix, c));
            }
        }
        i += 1;
    }
    proof {
        assert(s@.subrange(0, len as int) =~= s@);
    }
    out
}

} // verus!
