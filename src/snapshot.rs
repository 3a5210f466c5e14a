//! The point-in-time record of every changed path in a working tree, and the
//! per-path and per-directory status queries answered from it.

use vstd::prelude::*;
use crate::flags::{status_of_bits, unmodified, PathStatus};
use crate::path::{is_under, RepoPath};

verus! {

/// One snapshot entry as seen by contracts: an absolute path and its raw flags.
pub type EntryView = (Seq<Seq<char>>, u32);

/// The view of a raw entry: its path's components and its flags.
pub open spec fn entry_view(e: (RepoPath, u32)) -> EntryView {
    (e.0@, e.1)
}

/// Absolute paths, each with the raw flags the provider reported for it, in
/// the order the provider listed them. Built once and never changed.
pub struct Snapshot {
    entries: Vec<(RepoPath, u32)>,
}

impl View for Snapshot {
    type V = Seq<EntryView>;

    closed spec fn view(&self) -> Seq<EntryView> {
        self.entries@.map_values(|e: (RepoPath, u32)| entry_view(e))
    }
}

/// The flags of the first entry recorded for exactly path `p`, if any.
pub open spec fn lookup(s: Seq<EntryView>, p: Seq<Seq<char>>) -> Option<u32>
    decreases s.len(),
{
    if s.len() == 0 {
        None
    } else if s[0].0 == p {
        Some(s[0].1)
    } else {
        lookup(s.drop_first(), p)
    }
}

/// The status of file `p`: the reduction of its recorded flags, or no change
/// at all when the snapshot has no entry for it.
pub open spec fn file_status(s: Seq<EntryView>, p: Seq<Seq<char>>) -> PathStatus {
    match lookup(s, p) {
        Some(bits) => status_of_bits(bits),
        None => unmodified(),
    }
}

/// The union of the flags of every entry whose path is under `dir`.
pub open spec fn combined_under(s: Seq<EntryView>, dir: Seq<Seq<char>>) -> u32
    decreases s.len(),
{
    if s.len() == 0 {
        0
    } else {
        let rest = combined_under(s.drop_last(), dir);
        if is_under(s.last().0, dir) {
            rest | s.last().1
        } else {
            rest
        }
    }
}

/// The status of directory `dir`: the reduction of the union of the flags of
/// everything under it.
pub open spec fn dir_status_of(s: Seq<EntryView>, dir: Seq<Seq<char>>) -> PathStatus {
    status_of_bits(combined_under(s, dir))
}

impl Snapshot {
    /// A snapshot of `raw`, whose paths are relative to `workdir`: each entry's
    /// path is joined onto `workdir`, and its flags are kept as they are.
    pub fn new(workdir: &RepoPath, raw: Vec<(RepoPath, u32)>) -> (r: Snapshot)
        ensures
            r@.len() == raw@.len(),
            forall|i: int|
                0 <= i < raw@.len() ==> #[trigger] r@[i] == (workdir@ + raw@[i].0@, raw@[i].1),
    {
        let mut entries: Vec<(RepoPath, u32)> = Vec::new();
        let mut i: usize = 0;
        while i < raw.len()
            invariant
                i <= raw.len(),
                entries.len() == i,
                forall|j: int|
                    0 <= j < i ==> #[trigger] entry_view(entries@[j]) == (
                    workdir@ + raw@[j].0@,
                    raw@[j].1,
                ),
            decreases raw.len() - i,
        {
            let full = workdir.join(&raw[i].0);
            entries.push((full, raw[i].1));
            i = i + 1;
        }
        let r = Snapshot { entries };
        assert forall|j: int| 0 <= j < raw@.len() implies #[trigger] r@[j] == (
            workdir@ + raw@[j].0@,
            raw@[j].1,
        ) by {
            assert(r@[j] == entry_view(r.entries@[j]));
        }
        r
    }

    /// The status of the file at `path`: found by exact component equality,
    /// never by prefix; no change at all when the snapshot has no entry for it.
    pub fn status(&self, path: &RepoPath) -> (r: PathStatus)
        ensures
            r == file_status(self@, path@),
    {
        let n = self.entries.len();
        let mut i: usize = 0;
        assert(self@.subrange(0, n as int) =~= self@);
        while i < n
            invariant
                n == self.entries.len(),
                n == self@.len(),
                i <= n,
                lookup(self@, path@) == lookup(self@.subrange(i as int, n as int), path@),
            decreases n - i,
        {
            let ghost rest = self@.subrange(i as int, n as int);
            assert(rest[0] == entry_view(self.entries@[i as int]));
            assert(rest.drop_first() =~= self@.subrange(i + 1, n as int));
            if self.entries[i].0.same_as(path) {
                return PathStatus::from_bits(self.entries[i].1);
            }
            i = i + 1;
        }
        assert(self@.subrange(n as int, n as int).len() == 0);
        PathStatus::unmodified()
    }

    /// The status of directory `dir`: the flags of every entry whose path is
    /// under `dir` (component-wise) are united, and the union is reduced one
    /// side at a time. A directory with nothing under it has no change.
    pub fn dir_status(&self, dir: &RepoPath) -> (r: PathStatus)
        ensures
            r == dir_status_of(self@, dir@),
    {
        let n = self.entries.len();
        let mut acc: u32 = 0;
        let mut i: usize = 0;
        while i < n
            invariant
                n == self.entries.len(),
                n == self@.len(),
                i <= n,
                acc == combined_under(self@.subrange(0, i as int), dir@),
            decreases n - i,
        {
            let ghost pre = self@.subrange(0, i + 1);
            assert(pre.drop_last() =~= self@.subrange(0, i as int));
            assert(pre.last() == entry_view(self.entries@[i as int]));
            if self.entries[i].0.starts_with(dir) {
                acc = acc | self.entries[i].1;
            }
            i = i + 1;
        }
        assert(self@.subrange(0, n as int) =~= self@);
        PathStatus::from_bits(acc)
    }
}

} // verus!
