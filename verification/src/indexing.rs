//! The little of the indexing layer that is this core's own logic: naming
//! the storage table for a project.

use vstd::prelude::*;

use crate::text;

verus! {

/// A handle standing for the index storage; querying and filling it is the
/// indexing pipeline's work, outside this core.
#[derive(Clone, Copy, Debug, Default)]
pub struct DuckdbIndex {}

/// Turns a project name into a table name: every `-` becomes `_`.
pub fn normalize_table_name(name: &str) -> (r: String)
    ensures
        r@ == name@.map_values(
            |c: char|
                if c == '-' {
                    '_'
                } else {
                    c
                },
        ),
{
    let len = name.unicode_len();
    let mut out = String::new();
    let mut i: usize = 0;
    proof {
        assert(out@ =~= name@.subrange(0, 0).map_values(
            |c: char|
                if c == '-' {
                    '_'
                } else {
                    c
                },
        ));
    }
    while i < len
        invariant
            len == name@.len(),
            i <= len,
            out@ == name@.subrange(0, i as int).map_values(
                |c: char|
                    if c == '-' {
                        '_'
                    } else {
                        c
                    },
            ),
        decreases len - i,
    {
        let c = name.get_char(i);
        if c == '-' {
            text::push_char(&mut out, '_');
        } else {
            text::push_char(&mut out, c);
        }
        proof {
            assert(out@ =~= name@.subrange(0, i + 1 as int).map_values(
                |c: char|
                    if c == '-' {
                        '_'
                    } else {
                        c
                    },
            ));
        }
        i += 1;
    }
    proof {
        assert(name@.subrange(0, len as int) =~= name@);
    }
    out
}

} // verus!
