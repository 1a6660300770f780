//! Judging an agent's diff: which expected additions and removals it made,
//! and the report written when some are missing.

use vstd::prelude::*;

use crate::text;
use crate::text::lines_spec;
use crate::text::trim_spec;

verus! {

/// The lines of `ls` that start with `marker`, the marker stripped, blank
/// lines dropped.
pub open spec fn changed_lines_spec(ls: Seq<Seq<char>>, marker: char) -> Seq<Seq<char>>
    decreases ls.len(),
{
    if ls.len() == 0 {
        seq![]
    } else {
        changed_lines_spec(ls.subrange(0, ls.len() - 1), marker) + {
            let l = ls[ls.len() - 1];
            if l.len() > 0 && l[0] == marker && trim_spec(l.drop_first()).len() > 0 {
                seq![l.drop_first()]
            } else {
                seq![]
            }
        }
    }
}

/// The additions (`+`) or removals (`-`) of a diff: marked lines with the
/// marker stripped, blank ones dropped.
pub fn changed_lines(diff: &str, marker: char) -> (r: Vec<String>)
    ensures
        r@.map_values(|s: String| s@) == changed_lines_spec(lines_spec(diff@), marker),
{
    let ls = text::split_lines(diff);
    let ghost views = ls@.map_values(|x: String| x@);
    let mut out: Vec<String> = Vec::new();
    let mut i: usize = 0;
    proof {
        assert(views.subrange(0, 0) =~= Seq::<Seq<char>>::empty());
        assert(out@.map_values(|s: String| s@) =~= changed_lines_spec(views.subrange(0, 0), marker));
    }
    while i < ls.len()
        invariant
            views == ls@.map_values(|x: String| x@),
            views == lines_spec(diff@),
            i <= ls@.len(),
            out@.map_values(|s: String| s@) == changed_lines_spec(
                views.subrange(0, i as int),
                marker,
            ),
        decreases ls@.len() - i,
    {
        let ghost pre = views.subrange(0, i as int);
        let ghost post = views.subrange(0, i + 1 as int);
        proof {
            assert(post.subrange(0, post.len() - 1) =~= pre);
            assert(post[post.len() - 1] == views[i as int]);
            assert(views[i as int] == ls@[i as int]@);
        }
        let line = &ls[i];
        let len = line.as_str().unicode_len();
        if len > 0 && line.as_str().get_char(0) == marker {
            let stripped = line.as_str().substring_char(1, len);
            proof {
                assert(stripped@ =~= ls@[i as int]@.drop_first());
            }
            let trimmed = text::trim(stripped);
            if trimmed.unicode_len() > 0 {
                let ghost prev = out@.map_values(|s: String| s@);
                out.push(String::from_str(stripped));
                proof {
                    assert(out@.map_values(|s: String| s@) =~= prev.push(
                        ls@[i as int]@.drop_first(),
                    ));
                }
            }
        }
        i += 1;
    }
    proof {
        assert(views.subrange(0, views.len() as int) =~= views);
    }
    out
}

/// True when some line of `found` equals `wanted`.
pub open spec fn found_contains(found: Seq<Seq<char>>, wanted: Seq<char>) -> bool {
    exists|j: int| 0 <= j < found.len() && found[j] == wanted
}

fn contains_line(found: &Vec<String>, wanted: &str) -> (r: bool)
    ensures
        r == found_contains(found@.map_values(|s: String| s@), wanted@),
{
    let mut j: usize = 0;
    while j < found.len()
        invariant
            j <= found@.len(),
            forall|k: int| 0 <= k < j ==> (#[trigger] found@[k])@ != wanted@,
        decreases found@.len() - j,
    {
        if text::str_eq(found[j].as_str(), wanted) {
            assert(found@.map_values(|s: String| s@)[j as int] == wanted@);
            return true;
        }
        j += 1;
    }
    proof {
        let fvs = found@.map_values(|s: String| s@);
        assert forall|k: int| 0 <= k < fvs.len() implies fvs[k] != wanted@ by {
            assert(fvs[k] == found@[k]@);
        }
    }
    false
}

/// The expected lines that `found` does not contain, in order.
pub open spec fn missing_spec(expected: Seq<Seq<char>>, found: Seq<Seq<char>>) -> Seq<Seq<char>>
    decreases expected.len(),
{
    if expected.len() == 0 {
        seq![]
    } else {
        missing_spec(expected.subrange(0, expected.len() - 1), found) + {
            if !found_contains(found, expected[expected.len() - 1]) {
                seq![expected[expected.len() - 1]]
            } else {
                seq![]
            }
        }
    }
}

/// Which of the expected lines the diff does not contain.
pub fn missing_changes(expected: &Vec<String>, found: &Vec<String>) -> (r: Vec<String>)
    ensures
        r@.map_values(|s: String| s@) == missing_spec(
            expected@.map_values(|s: String| s@),
            found@.map_values(|s: String| s@),
        ),
{
    let ghost evs = expected@.map_values(|s: String| s@);
    let ghost fvs = found@.map_values(|s: String| s@);
    let mut out: Vec<String> = Vec::new();
    let mut i: usize = 0;
    proof {
        assert(evs.subrange(0, 0) =~= Seq::<Seq<char>>::empty());
        assert(out@.map_values(|s: String| s@) =~= missing_spec(evs.subrange(0, 0), fvs));
    }
    while i < expected.len()
        invariant
            evs == expected@.map_values(|s: String| s@),
            fvs == found@.map_values(|s: String| s@),
            i <= expected@.len(),
            out@.map_values(|s: String| s@) == missing_spec(evs.subrange(0, i as int), fvs),
        decreases expected@.len() - i,
    {
        let ghost pre = evs.subrange(0, i as int);
        let ghost post = evs.subrange(0, i + 1 as int);
        proof {
            assert(post.subrange(0, post.len() - 1) =~= pre);
            assert(post[post.len() - 1] == evs[i as int]);
        }
        if !contains_line(found, expected[i].as_str()) {
            let ghost prev = out@.map_values(|s: String| s@);
            out.push(expected[i].clone());
            proof {
                assert(out@.map_values(|s: String| s@) =~= prev.push(evs[i as int]));
            }
        }
        i += 1;
    }
    proof {
        assert(evs.subrange(0, evs.len() as int) =~= evs);
    }
    out
}

/// One report section: each line followed by a newline.
pub open spec fn lines_block(xs: Seq<Seq<char>>) -> Seq<char>
    decreases xs.len(),
{
    if xs.len() == 0 {
        seq![]
    } else {
        lines_block(xs.subrange(0, xs.len() - 1)) + xs[xs.len() - 1] + "\n"@
    }
}

fn append_lines(out: &mut String, xs: &Vec<String>)
    ensures
        final(out)@ == old(out)@ + lines_block(xs@.map_values(|s: String| s@)),
{
    let ghost views = xs@.map_values(|s: String| s@);
    let mut i: usize = 0;
    proof {
        assert(views.subrange(0, 0) =~= Seq::<Seq<char>>::empty());
        assert(old(out)@ + lines_block(views.subrange(0, 0)) =~= old(out)@);
    }
    while i < xs.len()
        invariant
            views == xs@.map_values(|s: String| s@),
            i <= xs@.len(),
            out@ == old(out)@ + lines_block(views.subrange(0, i as int)),
        decreases xs@.len() - i,
    {
        proof {
            reveal_strlit("\n");
        }
        out.append(xs[i].as_str());
        text::push_char(out, '\n');
        proof {
            let post = views.subrange(0, i + 1 as int);
            assert(post.subrange(0, post.len() - 1) =~= views.subrange(0, i as int));
            assert(post[post.len() - 1] == views[i as int]);
            assert("\n"@ =~= seq!['\n']);
            assert(out@ =~= old(out)@ + lines_block(post));
        }
        i += 1;
    }
    proof {
        assert(views.subrange(0, xs@.len() as int) =~= views);
    }
}

/// The report text written when expected changes were not found: the
/// missing and the found lines, section by section.
pub open spec fn failure_info_spec(
    missing_removals: Seq<Seq<char>>,
    missing_additions: Seq<Seq<char>>,
    found_removals: Seq<Seq<char>>,
    found_additions: Seq<Seq<char>>,
) -> Seq<char> {
    "Expected changes were not found in the patch.\n\n"@ + "Missing removals:\n"@ + lines_block(
        missing_removals,
    ) + "\n"@ + "Missing additions:\n"@ + lines_block(missing_additions) + "\n"@
        + "Found removals:\n"@ + lines_block(found_removals) + "\n"@ + "Found additions:\n"@
        + lines_block(found_additions)
}

/// Writes the failure report for a diff that misses expected changes.
pub fn write_failure_info(
    missing_removals: &Vec<String>,
    missing_additions: &Vec<String>,
    found_removals: &Vec<String>,
    found_additions: &Vec<String>,
) -> (r: String)
    ensures
        r@ == failure_info_spec(
            missing_removals@.map_values(|s: String| s@),
            missing_additions@.map_values(|s: String| s@),
            found_removals@.map_values(|s: String| s@),
            found_additions@.map_values(|s: String| s@),
        ),
{
    let mut content = String::from_str("Expected changes were not found in the patch.\n\n");
    content.append("Missing removals:\n");
    append_lines(&mut content, missing_removals);
    content.append("\n");
    content.append("Missing additions:\n");
    append_lines(&mut content, missing_additions);
    content.append("\n");
    content.append("Found removals:\n");
    append_lines(&mut content, found_removals);
    content.append("\n");
    content.append("Found additions:\n");
    append_lines(&mut content, found_additions);
    proof {
        assert(content@ =~= failure_info_spec(
            missing_removals@.map_values(|s: String| s@),
            missing_additions@.map_values(|s: String| s@),
            found_removals@.map_values(|s: String| s@),
            found_additions@.map_values(|s: String| s@),
        ));
    }
    content
}

} // verus!
