//! Properties of the status queries that hold for every snapshot.

use vstd::prelude::*;
use crate::flags::{
    has_flag, lemma_has_union, lemma_only_unstaged_modification, unmodified, GitStatus, PathStatus,
    INDEX_DELETED, INDEX_MODIFIED, INDEX_NEW, INDEX_RENAMED, INDEX_TYPECHANGE, WT_DELETED,
    WT_MODIFIED, WT_NEW, WT_RENAMED, WT_TYPECHANGE,
};
use crate::path::is_under;
use crate::snapshot::{combined_under, dir_status_of, file_status, lookup, EntryView};

verus! {

/// Whether `flag` is a single bit.
pub open spec fn single_bit(flag: u32) -> bool {
    flag != 0 && flag & ((flag - 1) as u32) == 0
}

/// Every status flag that the reduction reads is a single bit.
pub proof fn lemma_flags_are_single_bits()
    ensures
        single_bit(INDEX_NEW),
        single_bit(INDEX_MODIFIED),
        single_bit(INDEX_DELETED),
        single_bit(INDEX_RENAMED),
        single_bit(INDEX_TYPECHANGE),
        single_bit(WT_NEW),
        single_bit(WT_MODIFIED),
        single_bit(WT_DELETED),
        single_bit(WT_RENAMED),
        single_bit(WT_TYPECHANGE),
{
    assert(INDEX_NEW & ((INDEX_NEW - 1) as u32) == 0 && INDEX_MODIFIED & ((INDEX_MODIFIED
        - 1) as u32) == 0 && INDEX_DELETED & ((INDEX_DELETED - 1) as u32) == 0 && INDEX_RENAMED & ((
    INDEX_RENAMED - 1) as u32) == 0 && INDEX_TYPECHANGE & ((INDEX_TYPECHANGE - 1) as u32) == 0
        && WT_NEW & ((WT_NEW - 1) as u32) == 0 && WT_MODIFIED & ((WT_MODIFIED - 1) as u32) == 0
        && WT_DELETED & ((WT_DELETED - 1) as u32) == 0 && WT_RENAMED & ((WT_RENAMED - 1) as u32)
        == 0 && WT_TYPECHANGE & ((WT_TYPECHANGE - 1) as u32) == 0) by (bit_vector);
}

/// The empty flag set holds no flag.
pub proof fn lemma_empty_has_nothing(flag: u32)
    requires
        flag != 0,
    ensures
        !has_flag(0, flag),
{
    assert(0u32 & flag != flag) by (bit_vector)
        requires
            flag != 0u32,
    ;
}

/// The empty flag set reduces to no change on either side.
pub proof fn lemma_empty_is_unmodified()
    ensures
        crate::flags::status_of_bits(0) == unmodified(),
{
    lemma_empty_has_nothing(INDEX_NEW);
    lemma_empty_has_nothing(INDEX_MODIFIED);
    lemma_empty_has_nothing(INDEX_DELETED);
    lemma_empty_has_nothing(INDEX_RENAMED);
    lemma_empty_has_nothing(INDEX_TYPECHANGE);
    lemma_empty_has_nothing(WT_NEW);
    lemma_empty_has_nothing(WT_MODIFIED);
    lemma_empty_has_nothing(WT_DELETED);
    lemma_empty_has_nothing(WT_RENAMED);
    lemma_empty_has_nothing(WT_TYPECHANGE);
}

/// A path that no entry records has no change on either side.
pub proof fn lemma_absent_path_unmodified(s: Seq<EntryView>, p: Seq<Seq<char>>)
    requires
        forall|i: int| 0 <= i < s.len() ==> #[trigger] s[i].0 != p,
    ensures
        file_status(s, p) == unmodified(),
    decreases s.len(),
{
    if s.len() > 0 {
        assert forall|i: int| 0 <= i < s.drop_first().len() implies #[trigger] s.drop_first()[i].0
            != p by {
            assert(s.drop_first()[i] == s[i + 1]);
        }
        lemma_absent_path_unmodified(s.drop_first(), p);
    }
}

/// The first entry for `p` is found when every entry for `p` has flags `bits`.
proof fn lemma_lookup_uniform(s: Seq<EntryView>, p: Seq<Seq<char>>, bits: u32)
    requires
        exists|i: int| 0 <= i < s.len() && #[trigger] s[i].0 == p,
        forall|i: int| 0 <= i < s.len() && #[trigger] s[i].0 == p ==> s[i].1 == bits,
    ensures
        lookup(s, p) == Some(bits),
    decreases s.len(),
{
    if s[0].0 != p {
        let t = s.drop_first();
        let i = choose|i: int| 0 <= i < s.len() && #[trigger] s[i].0 == p;
        assert(t[i - 1] == s[i]);
        assert forall|k: int| 0 <= k < t.len() && #[trigger] t[k].0 == p implies t[k].1 == bits by {
            assert(t[k] == s[k + 1]);
        }
        lemma_lookup_uniform(t, p, bits);
    }
}

/// A path whose entries report only an unstaged modification has no staged
/// change and an unstaged `Modified`.
pub proof fn lemma_unstaged_modification(s: Seq<EntryView>, p: Seq<Seq<char>>)
    requires
        exists|i: int| 0 <= i < s.len() && #[trigger] s[i].0 == p,
        forall|i: int| 0 <= i < s.len() && #[trigger] s[i].0 == p ==> s[i].1 == WT_MODIFIED,
    ensures
        file_status(s, p) == (PathStatus {
            staged: GitStatus::NotModified,
            unstaged: GitStatus::Modified,
        }),
{
    lemma_lookup_uniform(s, p, WT_MODIFIED);
    lemma_only_unstaged_modification();
}

/// A single-bit flag is in a directory's union exactly when some entry under
/// the directory has it.
pub proof fn lemma_combined_has(s: Seq<EntryView>, dir: Seq<Seq<char>>, flag: u32)
    requires
        single_bit(flag),
    ensures
        has_flag(combined_under(s, dir), flag) <==> exists|i: int|
            0 <= i < s.len() && is_under(#[trigger] s[i].0, dir) && has_flag(s[i].1, flag),
    decreases s.len(),
{
    if s.len() == 0 {
        lemma_empty_has_nothing(flag);
    } else {
        let rest = s.drop_last();
        let last = (s.len() - 1) as int;
        lemma_combined_has(rest, dir, flag);
        if is_under(s.last().0, dir) {
            lemma_has_union(combined_under(rest, dir), s.last().1, flag);
        }
        if exists|i: int| 0 <= i < rest.len() && is_under(#[trigger] rest[i].0, dir) && has_flag(rest[i].1, flag) {
            let i = choose|i: int| 0 <= i < rest.len() && is_under(#[trigger] rest[i].0, dir) && has_flag(rest[i].1, flag);
            assert(s[i] == rest[i]);
        }
        if exists|i: int| 0 <= i < s.len() && is_under(#[trigger] s[i].0, dir) && has_flag(s[i].1, flag) {
            let i = choose|i: int| 0 <= i < s.len() && is_under(#[trigger] s[i].0, dir) && has_flag(s[i].1, flag);
            if i < last {
                assert(rest[i] == s[i]);
            } else {
                assert(s[i] == s.last());
            }
        }
    }
}

/// A directory with something staged as new under it and something deleted
/// from the working tree under it, and nothing new or modified in the working
/// tree under it, shows as new on the staged side and deleted on the other.
pub proof fn lemma_dir_new_and_deleted(s: Seq<EntryView>, dir: Seq<Seq<char>>)
    requires
        exists|i: int|
            0 <= i < s.len() && is_under(#[trigger] s[i].0, dir) && has_flag(s[i].1, INDEX_NEW),
        exists|i: int|
            0 <= i < s.len() && is_under(#[trigger] s[i].0, dir) && has_flag(s[i].1, WT_DELETED),
        forall|i: int|
            0 <= i < s.len() && is_under(#[trigger] s[i].0, dir) ==> !has_flag(s[i].1, WT_NEW) && !has_flag(
                s[i].1,
                WT_MODIFIED,
            ),
    ensures
        dir_status_of(s, dir) == (PathStatus { staged: GitStatus::New, unstaged: GitStatus::Deleted }),
{
    lemma_flags_are_single_bits();
    lemma_combined_has(s, dir, INDEX_NEW);
    lemma_combined_has(s, dir, WT_NEW);
    lemma_combined_has(s, dir, WT_MODIFIED);
    lemma_combined_has(s, dir, WT_DELETED);
}

/// A directory with nothing under it has no change on either side.
pub proof fn lemma_dir_nothing_under(s: Seq<EntryView>, dir: Seq<Seq<char>>)
    requires
        forall|i: int| 0 <= i < s.len() ==> !is_under(#[trigger] s[i].0, dir),
    ensures
        combined_under(s, dir) == 0,
        dir_status_of(s, dir) == unmodified(),
    decreases s.len(),
{
    if s.len() > 0 {
        let rest = s.drop_last();
        assert forall|i: int| 0 <= i < rest.len() implies !is_under(#[trigger] rest[i].0, dir) by {
            assert(rest[i] == s[i]);
        }
        assert(s.last() == s[s.len() - 1]);
        lemma_dir_nothing_under(rest, dir);
    }
    lemma_empty_is_unmodified();
}

/// Prefix matching is by whole components: an entry whose path differs from
/// `dir` in the component where `dir` ends (`/repo/abc/file` against
/// `/repo/ab`) leaves the directory's status unchanged.
pub proof fn lemma_dir_ignores_sibling(
    s: Seq<EntryView>,
    dir: Seq<Seq<char>>,
    p: Seq<Seq<char>>,
    bits: u32,
)
    requires
        dir.len() > 0,
        p.len() >= dir.len(),
        p[dir.len() - 1] != dir[dir.len() - 1],
    ensures
        !is_under(p, dir),
        combined_under(s.push((p, bits)), dir) == combined_under(s, dir),
        dir_status_of(s.push((p, bits)), dir) == dir_status_of(s, dir),
{
    assert(p.subrange(0, dir.len() as int)[dir.len() - 1] == p[dir.len() - 1]);
    assert(s.push((p, bits)).drop_last() =~= s);
}

/// A file's status depends on the snapshot and the path alone: asking twice
/// gives the same answer.
pub proof fn lemma_status_repeatable(s: Seq<EntryView>, p: Seq<Seq<char>>, q: Seq<Seq<char>>)
    requires
        p == q,
    ensures
        file_status(s, p) == file_status(s, q),
{
}

} // verus!
