//! The file filter: decides which discovered filesystem entries are
//! candidates for media inspection.
//!
//! Directory entries are rejected, as are entries whose file name ends with
//! the literal `.nfo` suffix (sidecar metadata, never media). Everything
//! else is accepted; real media-type validation is left to the prober.

use vstd::prelude::*;

verus! {

/// True when `name` ends with the literal `.nfo` suffix.
pub open spec fn has_nfo_suffix(name: Seq<char>) -> bool {
    name.len() >= 4 && name.subrange(name.len() - 4, name.len() as int) == ".nfo"@
}

/// What the filter decides of an entry: only regular (non-directory)
/// entries without the `.nfo` suffix are inspected.
pub open spec fn spec_should_inspect(is_dir: bool, name: Seq<char>) -> bool {
    !is_dir && !has_nfo_suffix(name)
}

/// Decides whether a discovered entry should be probed, from the entry's
/// directory flag and its file name.
pub fn should_inspect(is_dir: bool, file_name: &str) -> (r: bool)
    ensures
        r == spec_should_inspect(is_dir, file_name@),
{
    if is_dir {
        return false;
    }
    let n: usize = file_name.unicode_len();
    if n < 4 {
        return true;
    }
    let c0: char = file_name.get_char(n - 4);
    let c1: char = file_name.get_char(n - 3);
    let c2: char = file_name.get_char(n - 2);
    let c3: char = file_name.get_char(n - 1);
    let is_nfo: bool = c0 == '.' && c1 == 'n' && c2 == 'f' && c3 == 'o';
    proof {
        reveal_strlit(".nfo");
        let tail = file_name@.subrange(file_name@.len() - 4, file_name@.len() as int);
        if is_nfo {
            assert(tail =~= ".nfo"@);
        } else {
            assert(tail != ".nfo"@) by {
                if tail == ".nfo"@ {
                    assert(tail[0] == '.' && tail[1] == 'n' && tail[2] == 'f' && tail[3] == 'o');
                }
            }
        }
    }
    !is_nfo
}

/// The filter is a pure predicate of the entry: any two results it gives
/// for the same entry agree.
pub proof fn lemma_filter_idempotent(is_dir: bool, name: Seq<char>, first: bool, second: bool)
    requires
        first == spec_should_inspect(is_dir, name),
        second == spec_should_inspect(is_dir, name),
    ensures
        first == second,
{
}

/// Directories and `.nfo`-suffixed names are excluded; every other regular
/// entry is included.
pub proof fn lemma_filter_correctness(is_dir: bool, name: Seq<char>)
    ensures
        is_dir ==> !spec_should_inspect(is_dir, name),
        has_nfo_suffix(name) ==> !spec_should_inspect(is_dir, name),
        !is_dir && !has_nfo_suffix(name) ==> spec_should_inspect(is_dir, name),
{
}

} // verus!
