//! Classification of visited nodes and the two pure filter predicates,
//! each taking the entry data and the relevant filter data explicitly.

use vstd::prelude::*;
use crate::pattern::Pattern;
use crate::pattern::pattern_matches;

verus! {

/// The kind of a filesystem entry, as classified at visit time.
#[derive(Debug, PartialEq, Eq, Clone, Copy, Structural)]
pub enum EntryType {
    Dir,
    File,
    Link,
}

/// Classification from filesystem metadata, checked in the precedence
/// order directory, regular file, symbolic link. A node that reports
/// none of the three cannot be classified.
pub open spec fn classify_spec(is_dir: bool, is_file: bool, is_symlink: bool) -> Option<
    EntryType,
> {
    if is_dir {
        Some(EntryType::Dir)
    } else if is_file {
        Some(EntryType::File)
    } else if is_symlink {
        Some(EntryType::Link)
    } else {
        None
    }
}

/// Classify a visited node from the three metadata flags the filesystem
/// reports for it. Returns `None` when the node matches no entry type
/// (stale between listing and stat), which callers report as a
/// non-fatal error.
pub fn classify(is_dir: bool, is_file: bool, is_symlink: bool) -> (r: Option<EntryType>)
    ensures
        r == classify_spec(is_dir, is_file, is_symlink),
{
    if is_dir {
        Some(EntryType::Dir)
    } else if is_file {
        Some(EntryType::File)
    } else if is_symlink {
        Some(EntryType::Link)
    } else {
        None
    }
}

/// The source texts of a sequence of compiled patterns.
pub open spec fn pattern_views(patterns: Seq<Pattern>) -> Seq<Seq<char>> {
    patterns.map_values(|p: Pattern| p@)
}

/// An entry passes the type filter when no type was asked for, or when
/// its classified kind is one of those asked for.
pub open spec fn type_accepted_spec(kind: EntryType, types: Seq<EntryType>) -> bool {
    types.len() == 0 || types.contains(kind)
}

/// An entry passes the name filter when no pattern was given, or when
/// its base name is known and matches at least one of the patterns.
/// `name` is `None` for a base name that is not valid text; such a node
/// is never matched against a pattern.
pub open spec fn name_accepted_spec(name: Option<Seq<char>>, patterns: Seq<Seq<char>>) -> bool {
    patterns.len() == 0 || match name {
        Some(n) => exists|i: int| 0 <= i < patterns.len() && pattern_matches(patterns[i], n),
        None => false,
    }
}

/// Decide the type filter for one classified entry.
pub fn type_accepted(kind: EntryType, types: &Vec<EntryType>) -> (r: bool)
    ensures
        r == type_accepted_spec(kind, types@),
{
    if types.len() == 0 {
        return true;
    }
    let mut i: usize = 0;
    while i < types.len()
        invariant
            0 <= i <= types@.len(),
            forall|j: int| 0 <= j < i ==> types@[j] != kind,
        decreases types@.len() - i,
    {
        if types[i] == kind {
            return true;
        }
        i += 1;
    }
    false
}

/// Decide the name filter for one entry whose base name is `name`.
pub fn name_accepted(name: &str, patterns: &Vec<Pattern>) -> (r: bool)
    ensures
        r == name_accepted_spec(Some(name@), pattern_views(patterns@)),
{
    if patterns.len() == 0 {
        return true;
    }
    let mut i: usize = 0;
    while i < patterns.len()
        invariant
            0 <= i <= patterns@.len(),
            forall|j: int| 0 <= j < i ==> !pattern_matches(pattern_views(patterns@)[j], name@),
        decreases patterns@.len() - i,
    {
        if patterns[i].is_match(name) {
            assert(pattern_views(patterns@)[i as int] == patterns@[i as int]@);
            return true;
        }
        i += 1;
    }
    false
}

/// When no type filter is given, every entry passes the type filter,
/// whatever its classification.
pub proof fn lemma_empty_types_accept_all(kind: EntryType, types: Seq<EntryType>)
    requires
        types.len() == 0,
    ensures
        type_accepted_spec(kind, types),
{
}

/// When no name pattern is given, every entry passes the name filter,
/// whatever its base name, even one that is not valid text.
pub proof fn lemma_empty_names_accept_all(name: Option<Seq<char>>, patterns: Seq<Seq<char>>)
    requires
        patterns.len() == 0,
    ensures
        name_accepted_spec(name, patterns),
{
}

/// Name filtering is a disjunction: a name that matches any one of the
/// given patterns is accepted.
pub proof fn lemma_any_match_accepts(name: Seq<char>, patterns: Seq<Seq<char>>, i: int)
    requires
        0 <= i < patterns.len(),
        pattern_matches(patterns[i], name),
    ensures
        name_accepted_spec(Some(name), patterns),
{
}

} // verus!
