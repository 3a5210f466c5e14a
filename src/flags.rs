//! Change kinds, the staged/unstaged status pair, and the reduction of a raw
//! provider flag set to one change kind per side.

use vstd::prelude::*;

verus! {

// Raw status bits as the repository provider reports them: libgit2's
// `git_status_t` values. A raw flag set is the union of the bits that apply.
/// Added to the index.
pub const INDEX_NEW: u32 = 1;
/// Changed in the index.
pub const INDEX_MODIFIED: u32 = 2;
/// Removed from the index.
pub const INDEX_DELETED: u32 = 4;
/// Renamed in the index.
pub const INDEX_RENAMED: u32 = 8;
/// Changed type in the index.
pub const INDEX_TYPECHANGE: u32 = 16;
/// Not tracked, present in the working tree.
pub const WT_NEW: u32 = 128;
/// Changed in the working tree.
pub const WT_MODIFIED: u32 = 256;
/// Removed from the working tree.
pub const WT_DELETED: u32 = 512;
/// Changed type in the working tree.
pub const WT_TYPECHANGE: u32 = 1024;
/// Renamed in the working tree.
pub const WT_RENAMED: u32 = 2048;

/// One side (staged or unstaged) of the change state of a path.
#[derive(Clone, Copy, Debug, PartialEq, Eq, Structural)]
pub enum GitStatus {
    NotModified,
    New,
    Modified,
    Deleted,
    Renamed,
    TypeChange,
}

/// The change state of a file or directory: what is staged in the index, and
/// what is changed in the working tree but not staged.
#[derive(Clone, Copy, Debug, PartialEq, Eq, Structural)]
pub struct PathStatus {
    pub staged: GitStatus,
    pub unstaged: GitStatus,
}

/// Whether every bit of `flag` is set in `bits`.
pub open spec fn has_flag(bits: u32, flag: u32) -> bool {
    bits & flag == flag
}

/// The first kind in priority order (new, modified, deleted, renamed, type
/// change) whose flag is present; `NotModified` when none is.
pub open spec fn first_kind(
    bits: u32,
    new: u32,
    modified: u32,
    deleted: u32,
    renamed: u32,
    typechange: u32,
) -> GitStatus {
    if has_flag(bits, new) {
        GitStatus::New
    } else if has_flag(bits, modified) {
        GitStatus::Modified
    } else if has_flag(bits, deleted) {
        GitStatus::Deleted
    } else if has_flag(bits, renamed) {
        GitStatus::Renamed
    } else if has_flag(bits, typechange) {
        GitStatus::TypeChange
    } else {
        GitStatus::NotModified
    }
}

/// The staged side of a raw flag set.
pub open spec fn index_kind(bits: u32) -> GitStatus {
    first_kind(bits, INDEX_NEW, INDEX_MODIFIED, INDEX_DELETED, INDEX_RENAMED, INDEX_TYPECHANGE)
}

/// The unstaged side of a raw flag set.
pub open spec fn worktree_kind(bits: u32) -> GitStatus {
    first_kind(bits, WT_NEW, WT_MODIFIED, WT_DELETED, WT_RENAMED, WT_TYPECHANGE)
}

/// Both sides of a raw flag set.
pub open spec fn status_of_bits(bits: u32) -> PathStatus {
    PathStatus { staged: index_kind(bits), unstaged: worktree_kind(bits) }
}

/// The status of a path that has no change at all.
pub open spec fn unmodified() -> PathStatus {
    PathStatus { staged: GitStatus::NotModified, unstaged: GitStatus::NotModified }
}

impl PathStatus {
    /// Neither staged nor unstaged changes.
    pub fn unmodified() -> (r: PathStatus)
        ensures
            r == unmodified(),
    {
        PathStatus { staged: GitStatus::NotModified, unstaged: GitStatus::NotModified }
    }

    /// Reduces a raw flag set to one change kind for each side.
    pub fn from_bits(bits: u32) -> (r: PathStatus)
        ensures
            r == status_of_bits(bits),
    {
        PathStatus { staged: index_status(bits), unstaged: working_tree_status(bits) }
    }
}

/// Whether every bit of `flag` is set in `bits`.
pub fn contains(bits: u32, flag: u32) -> (r: bool)
    ensures
        r == has_flag(bits, flag),
{
    bits & flag == flag
}

/// The unstaged change kind of a raw flag set: the first of new, modified,
/// deleted, renamed and type change that the working tree reports.
pub fn working_tree_status(bits: u32) -> (r: GitStatus)
    ensures
        r == worktree_kind(bits),
{
    if contains(bits, WT_NEW) {
        GitStatus::New
    } else if contains(bits, WT_MODIFIED) {
        GitStatus::Modified
    } else if contains(bits, WT_DELETED) {
        GitStatus::Deleted
    } else if contains(bits, WT_RENAMED) {
        GitStatus::Renamed
    } else if contains(bits, WT_TYPECHANGE) {
        GitStatus::TypeChange
    } else {
        GitStatus::NotModified
    }
}

/// The staged change kind of a raw flag set: the first of new, modified,
/// deleted, renamed and type change that the index reports.
pub fn index_status(bits: u32) -> (r: GitStatus)
    ensures
        r == index_kind(bits),
{
    if contains(bits, INDEX_NEW) {
        GitStatus::New
    } else if contains(bits, INDEX_MODIFIED) {
        GitStatus::Modified
    } else if contains(bits, INDEX_DELETED) {
        GitStatus::Deleted
    } else if contains(bits, INDEX_RENAMED) {
        GitStatus::Renamed
    } else if contains(bits, INDEX_TYPECHANGE) {
        GitStatus::TypeChange
    } else {
        GitStatus::NotModified
    }
}

/// A flag set that reports a path as new in the index resolves to `New` on
/// the staged side, whatever else it reports (a later modification of that
/// same new file included).
pub proof fn lemma_new_outranks_modified(bits: u32)
    requires
        has_flag(bits, INDEX_NEW),
    ensures
        index_kind(bits) == GitStatus::New,
{
}

/// A flag set that reports only an unstaged modification resolves to no
/// staged change and an unstaged `Modified`.
pub proof fn lemma_only_unstaged_modification()
    ensures
        status_of_bits(WT_MODIFIED) == (PathStatus {
            staged: GitStatus::NotModified,
            unstaged: GitStatus::Modified,
        }),
{
    assert(WT_MODIFIED & INDEX_NEW != INDEX_NEW) by (bit_vector);
    assert(WT_MODIFIED & INDEX_MODIFIED != INDEX_MODIFIED) by (bit_vector);
    assert(WT_MODIFIED & INDEX_DELETED != INDEX_DELETED) by (bit_vector);
    assert(WT_MODIFIED & INDEX_RENAMED != INDEX_RENAMED) by (bit_vector);
    assert(WT_MODIFIED & INDEX_TYPECHANGE != INDEX_TYPECHANGE) by (bit_vector);
    assert(WT_MODIFIED & WT_NEW != WT_NEW) by (bit_vector);
    assert(WT_MODIFIED & WT_MODIFIED == WT_MODIFIED) by (bit_vector);
}

/// Membership of a single-bit flag in a union is membership in either part.
pub proof fn lemma_has_union(a: u32, b: u32, flag: u32)
    requires
        flag != 0,
        flag & ((flag - 1) as u32) == 0,
    ensures
        has_flag(a | b, flag) == (has_flag(a, flag) || has_flag(b, flag)),
{
    assert(((a | b) & flag == flag) == (a & flag == flag || b & flag == flag)) by (bit_vector)
        requires
            flag != 0u32,
            flag & ((flag - 1) as u32) == 0u32,
    ;
}

} // verus!
