//! The location resolver: the single state path, derived afresh on every
//! call from the running executable's own path.
//!
//! Paths are modelled as character sequences with `/` as the directory
//! separator. The state path is the executable's containing directory
//! (everything up to and including the last separator) with the fixed file
//! name `data.json` appended.

use vstd::prelude::*;

verus! {

/// Whether a character separates directory components.
pub open spec fn is_separator(c: char) -> bool {
    c == '/'
}

/// The fixed name of the state file.
pub open spec fn state_file_name() -> Seq<char> {
    "data.json"@
}

/// Length of the directory prefix of `p`: everything up to and including
/// the last separator, or nothing when `p` has no separator.
pub open spec fn dir_prefix_len(p: Seq<char>) -> int
    decreases p.len(),
{
    if p.len() == 0 {
        0
    } else if is_separator(p.last()) {
        p.len() as int
    } else {
        dir_prefix_len(p.drop_last())
    }
}

/// The containing directory of `p`, its trailing separator kept.
pub open spec fn dir_of(p: Seq<char>) -> Seq<char> {
    p.subrange(0, dir_prefix_len(p))
}

/// The final component of `p`: what follows its last separator.
pub open spec fn file_name_of(p: Seq<char>) -> Seq<char> {
    p.subrange(dir_prefix_len(p), p.len() as int)
}

/// The state path derived from an executable path: the executable's
/// containing directory with the fixed state file name appended.
pub open spec fn state_path_of(exe: Seq<char>) -> Seq<char> {
    dir_of(exe) + state_file_name()
}

/// The directory prefix stays within the path and ends with a separator
/// whenever it is not empty.
pub proof fn lemma_dir_prefix_shape(p: Seq<char>)
    ensures
        0 <= dir_prefix_len(p) <= p.len(),
        dir_prefix_len(p) > 0 ==> is_separator(p[dir_prefix_len(p) - 1]),
    decreases p.len(),
{
    if p.len() == 0 {
    } else if is_separator(p.last()) {
    } else {
        lemma_dir_prefix_shape(p.drop_last());
    }
}

/// The directory prefix ends exactly at `k` when `p[k]..` holds no
/// separator and either `k` is the start of `p` or a separator stands
/// just before it.
pub proof fn lemma_dir_prefix_len_at(p: Seq<char>, k: int)
    requires
        0 <= k <= p.len(),
        forall|j: int| k <= j < p.len() ==> !is_separator(p[j]),
        k == 0 || is_separator(p[k - 1]),
    ensures
        dir_prefix_len(p) == k,
    decreases p.len(),
{
    if p.len() == 0 {
    } else if k == p.len() {
        assert(is_separator(p.last()));
    } else {
        assert(!is_separator(p.last()));
        lemma_dir_prefix_len_at(p.drop_last(), k);
    }
}

/// Strip the executable's file name, keeping its containing directory, and
/// append the fixed state file name. Recomputed on every call, never cached.
pub fn resolve_state_path(exe_path: &str) -> (resolved: String)
    ensures
        resolved@ == state_path_of(exe_path@),
{
    let length = exe_path.unicode_len();
    let mut cut: usize = length;
    while cut > 0 && exe_path.get_char(cut - 1) != '/'
        invariant
            cut <= length,
            length == exe_path@.len(),
            forall|j: int| cut <= j < length ==> !is_separator(exe_path@[j]),
        decreases cut,
    {
        cut = cut - 1;
    }
    proof {
        lemma_dir_prefix_len_at(exe_path@, cut as int);
    }
    let directory = exe_path.substring_char(0, cut);
    let resolved = String::from_str(directory).concat("data.json");
    assert(resolved@ == state_path_of(exe_path@));
    resolved
}

/// Path derivation: the state path always lies in the executable's own
/// containing directory and is always named exactly `data.json`. The path
/// is a function of the executable's location alone, so it does not depend
/// on the working directory at the time of the call.
pub proof fn lemma_path_derivation(exe: Seq<char>)
    ensures
        dir_of(state_path_of(exe)) == dir_of(exe),
        file_name_of(state_path_of(exe)) == state_file_name(),
{
    reveal_strlit("data.json");
    let directory = dir_of(exe);
    let derived = state_path_of(exe);
    lemma_dir_prefix_shape(exe);
    assert forall|j: int| directory.len() <= j < derived.len() implies !is_separator(
        derived[j],
    ) by {
        assert(derived[j] == state_file_name()[j - directory.len()]);
    }
    if directory.len() > 0 {
        assert(derived[directory.len() - 1] == exe[dir_prefix_len(exe) - 1]);
    }
    lemma_dir_prefix_len_at(derived, directory.len() as int);
    assert(dir_of(derived) =~= directory);
    assert(file_name_of(derived) =~= state_file_name());
}

} // verus!
