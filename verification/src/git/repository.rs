//! Paths of files in a repository.
use vstd::prelude::*;
use std::cmp::Ordering;
use crate::git::order::{ascending, compare_paths, spec_path_order, PathOrder};
use crate::git::status::FileStatus;

verus! {

/// The path of a file, relative to the root of the repository's working
/// directory.
#[derive(Clone, Debug, PartialEq, Eq, Hash)]
pub struct RepoPath(pub String);

/// What a list of status entries holds: each path's characters with the
/// file's status.
pub open spec fn entries_view(entries: Seq<(RepoPath, FileStatus)>) -> Seq<
    (Seq<char>, FileStatus),
> {
    Seq::new(entries.len(), |i: int| (entries[i].0.0@, entries[i].1))
}

impl RepoPath {
    /// How this path and another are ordered: component by component, a
    /// component by its bytes.
    fn path_order(&self, other: &RepoPath) -> (r: Ordering)
        ensures
            spec_path_order(self.0@, other.0@) == match r {
                Ordering::Less => PathOrder::Before,
                Ordering::Equal => PathOrder::Same,
                Ordering::Greater => PathOrder::After,
            },
    {
        match compare_paths(self.0.as_str(), other.0.as_str()) {
            PathOrder::Before => Ordering::Less,
            PathOrder::Same => Ordering::Equal,
            PathOrder::After => Ordering::Greater,
        }
    }
}

/// `<[T]>::sort_unstable_by` with the order of paths: the entries are
/// rearranged so that their paths ascend, and none is added, lost or
/// changed. Entries with the same path come out in either order. The
/// comparison handed to the sort is `path_order`, a total order as the sort
/// asks for.
#[verifier::external_body]
pub(crate) fn sort_by_path(entries: &mut Vec<(RepoPath, FileStatus)>)
    ensures
        entries_view(final(entries)@).to_multiset() == entries_view(old(entries)@).to_multiset(),
        final(entries)@.len() == old(entries)@.len(),
        ascending(entries_view(final(entries)@)),
{
    entries.sort_unstable_by(|a, b| a.0.path_order(&b.0));
}

} // verus!
