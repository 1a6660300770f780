//! Tests for the patch machinery: hunk parsing, candidate search, header
//! rebuilding, rendering, patch application, and line replacement.

use kwaak::evaluations::patch::changed_lines;
use kwaak::evaluations::patch::missing_changes;
use kwaak::evaluations::patch::write_failure_info;
use kwaak::patch_file::apply_patch;
use kwaak::patch_file::find_candidates;
use kwaak::patch_file::parse_hunks;
use kwaak::patch_file::rebuild_hunks;
use kwaak::patch_file::Candidate;
use kwaak::patch_file::HunkLine;
use kwaak::replace_lines::check_replace_args;
use kwaak::replace_lines::replace_content;
use kwaak::replace_lines::ReplaceArgsError;
use kwaak::replace_lines::ReplaceError;

fn bad_patch() -> &'static str {
    "--- a/src/evaluations/fixtures/swebench_2148/models.py\n+++ b/src/evaluations/fixtures/swebench_2148/models.py\n@@ -637,6 +637,7 @@ def iter_content(self, chunk_size=1, decode_unicode=False):\n                 except IncompleteRead as e:\n                     raise ChunkedEncodingError(e)\n                 except DecodeError as e:\n                     raise ContentDecodingError(e)\n+                except socket.error as e:\n+                    raise ConnectionError(e)\n             except AttributeError:\n                 # Standard file-like object.\n                 while True:\n@@ -652,8 +653,9 @@ def iter_content(self, chunk_size=1, decode_unicode=False):\n                     yield chunk\n \n-            self._content_consumed = True\n+            \n+            \n \n+        \n         # simulate reading small chunks of the content\n         reused_chunks = iter_slices(self._content, chunk_size)\n         \n@@ -664,6 +666,8 @@ def iter_content(self, chunk_size=1, decode_unicode=False):\n \n         if decode_unicode:\n             chunks = stream_decode_response_unicode(chunks, self)\n+\n+        finally:\n+            self._content_consumed = True\n \n         return chunks\n\n\n"
}

#[test]
fn test_split_patch_into_hunks() {
    let hunks = parse_hunks(bad_patch()).unwrap();
    assert_eq!(hunks.len(), 3);

    let header = &hunks[0].header;

    assert_eq!(header.source_range.start, 637);
    assert_eq!(header.source_range.range, 6);

    assert_eq!(header.dest_range.start, 637);
    assert_eq!(header.dest_range.range, 7);

    let header = &hunks[1].header;
    assert_eq!(header.source_range.start, 652);
    assert_eq!(header.source_range.range, 8);

    assert_eq!(header.dest_range.start, 653);
    assert_eq!(header.dest_range.range, 9);

    let header = &hunks[2].header;

    assert_eq!(header.source_range.start, 664);
    assert_eq!(header.source_range.range, 6);

    assert_eq!(header.dest_range.start, 666);
    assert_eq!(header.dest_range.range, 8);
}

#[test]
fn hunk_lines_are_classified() {
    let patch = "@@ -1,2 +1,2 @@\n context\n-removed\n+added\n";
    let hunks = parse_hunks(patch).unwrap();
    assert_eq!(hunks.len(), 1);
    let lines = &hunks[0].lines;
    assert_eq!(lines.len(), 3);
    assert!(matches!(&lines[0], HunkLine::Context(s) if s == " context"));
    assert!(matches!(&lines[1], HunkLine::Removed(s) if s == "removed"));
    assert!(matches!(&lines[2], HunkLine::Added(s) if s == "added"));
    assert_eq!(lines[1].content(), "removed");
    assert_eq!(lines[2].as_patch_line(), "+added");
}

#[test]
fn malformed_hunk_headers_are_refused() {
    assert!(parse_hunks("@@ broken\nrest\n").is_err());
    assert!(parse_hunks("@@ -a,b +1,2 @@\n x\n").is_err());
    // no @@ line at all: nothing to parse, so no hunks
    let hunks = parse_hunks("just\nsome\nlines\n").unwrap();
    assert_eq!(hunks.len(), 0);
}

#[test]
fn candidates_fix_miscounted_headers() {
    // the header claims line 10, but the lines really sit at line 2 (0-based 1)
    let patch = "@@ -10,3 +10,4 @@\n alpha\n-beta\n+BETA\n+extra\n gamma\n";
    let hunks = parse_hunks(patch).unwrap();
    assert_eq!(hunks.len(), 1);

    let content = "zero\nalpha\nbeta\ngamma\nend\n";
    let candidates = find_candidates(content, &hunks);
    assert_eq!(candidates.len(), 1);
    assert_eq!(candidates[0].start, 1);
    assert!(candidates[0].is_complete());
    assert_eq!(candidates[0].offset(), 1);

    let rebuilt = rebuild_hunks(&candidates);
    assert_eq!(rebuilt.len(), 1);
    let fixed = rebuilt[0].header.fixed_source_range.unwrap();
    assert_eq!(fixed.start, 1);
    assert_eq!(fixed.range, 3);
    let fixed_dest = rebuilt[0].header.fixed_dest_range.unwrap();
    assert_eq!(fixed_dest.start, 1);
    assert_eq!(fixed_dest.range, 4);

    let rendered = rebuilt[0].render_updated().unwrap();
    assert_eq!(
        rendered,
        "@@ -2,3 +2,4 @@\n alpha\n-beta\n+BETA\n+extra\n gamma\n"
    );
}

#[test]
fn render_needs_fixed_ranges() {
    let patch = "@@ -1,1 +1,1 @@\n-x\n+y\n";
    let hunks = parse_hunks(patch).unwrap();
    assert!(hunks[0].render_updated().is_err());
}

#[test]
fn candidate_new_starts_at_zero() {
    let patch = "@@ -1,1 +1,1 @@\n-x\n+y\n";
    let hunks = parse_hunks(patch).unwrap();
    let candidate = Candidate::new(5, &hunks[0]);
    assert_eq!(candidate.start, 5);
    assert_eq!(candidate.current_line, 0);
    assert!(candidate.next_line_matches("  x  "));
    assert!(!candidate.next_line_matches("z"));
}

#[test]
fn apply_patch_applies_unified_diff() {
    let base = "a\nb\nc\n";
    let patch = "--- a/f\n+++ b/f\n@@ -1,3 +1,3 @@\n a\n-b\n+B\n c\n";
    let patched = apply_patch(base, patch).unwrap();
    assert_eq!(patched, "a\nB\nc\n");

    // a patch whose context does not match the base does not apply
    let misfit = "--- a/f\n+++ b/f\n@@ -1,1 +1,1 @@\n-z\n+y\n";
    assert!(apply_patch("a\n", misfit).is_none());
}

#[test]
fn replace_content_replaces_a_range() {
    let file = "aa\nbb\ncc\ndd";
    let replaced = replace_content(file, 2, 3, "bb\nxx\ncc").unwrap();
    assert_eq!(replaced, "aa\nbb\nxx\ncc\ndd");
}

#[test]
fn replace_content_reindents_to_the_file() {
    let file = "fn main() {\n    one();\n    two();\n}";
    let replaced = replace_content(file, 2, 3, "one();\nthree();\ntwo();").unwrap();
    assert_eq!(replaced, "fn main() {\n    one();\n    three();\n    two();\n}");
}

#[test]
fn replace_content_checks_boundary_lines() {
    let file = "aa\nbb\ncc\ndd";
    let err = replace_content(file, 2, 3, "zz\ncc");
    assert_eq!(err, Err(ReplaceError::FirstLineMismatch));
    let err = replace_content(file, 2, 3, "bb\nzz");
    assert_eq!(err, Err(ReplaceError::LastLineMismatch));
}

#[test]
fn replace_args_are_guarded_in_order() {
    let file = "aa\nbb\ncc\ndd";
    assert_eq!(check_replace_args(file, "2", "3", "bb\ncc"), Ok((2, 3)));
    assert_eq!(
        check_replace_args(file, "two", "3", "x"),
        Err(ReplaceArgsError::InvalidStartLine)
    );
    assert_eq!(
        check_replace_args(file, "2", "", "x"),
        Err(ReplaceArgsError::InvalidEndLine)
    );
    assert_eq!(
        check_replace_args(file, "2", "9", "x"),
        Err(ReplaceArgsError::OutOfBounds)
    );
    assert_eq!(
        check_replace_args(file, "3", "2", "x"),
        Err(ReplaceArgsError::StartAfterEnd)
    );
    assert_eq!(
        check_replace_args(file, "0", "2", "x"),
        Err(ReplaceArgsError::StartAtZero)
    );
    assert_eq!(
        check_replace_args(file, "1", "0", "x"),
        Err(ReplaceArgsError::EndAtZero)
    );
    assert_eq!(
        check_replace_args(file, "2", "3", ""),
        Err(ReplaceArgsError::EmptyContent)
    );
}

#[test]
fn changed_lines_reads_diff_markers() {
    let diff = " ctx\n+added one\n-removed one\n+\n- \n+added two\n";
    let additions = changed_lines(diff, '+');
    assert_eq!(additions, vec!["added one", "added two"]);
    let removals = changed_lines(diff, '-');
    assert_eq!(removals, vec!["removed one"]);
}

#[test]
fn missing_changes_lists_what_was_not_found() {
    let expected = vec!["one".to_string(), "two".to_string(), "three".to_string()];
    let found = vec!["two".to_string()];
    let missing = missing_changes(&expected, &found);
    assert_eq!(missing, vec!["one", "three"]);
}

#[test]
fn write_failure_info_formats_the_report() {
    let report = write_failure_info(
        &vec!["m-r".to_string()],
        &vec!["m-a".to_string()],
        &vec!["f-r".to_string()],
        &vec!["f-a".to_string()],
    );
    assert_eq!(
        report,
        "Expected changes were not found in the patch.\n\nMissing removals:\nm-r\n\nMissing additions:\nm-a\n\nFound removals:\nf-r\n\nFound additions:\nf-a\n"
    );
}
