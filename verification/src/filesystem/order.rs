//! The four orders of a listing, and the stable sort that applies them.

use vstd::prelude::*;
use vstd::string::*;
use vstd::seq_lib::*;
use crate::filesystem::{FileEntry, SortBy, Timestamp};
use crate::utils::text::{
    lemma_lex_le_total,
    lemma_lex_le_transitive,
    lex_le,
    lowercase,
    lowercased,
    text_le,
};

verus! {

/// `a` is not later than `b`. No time at all counts as earlier than any
/// time.
pub open spec fn stamp_le(a: Option<Timestamp>, b: Option<Timestamp>) -> bool {
    match (a, b) {
        (None, _) => true,
        (Some(_), None) => false,
        (Some(x), Some(y)) => x.secs < y.secs || (x.secs == y.secs && x.nanos <= y.nanos),
    }
}

/// `a` is not after `b` in the dictionary. No extension at all counts as
/// before any extension, the empty one included.
pub open spec fn extension_le(a: Option<String>, b: Option<String>) -> bool {
    match (a, b) {
        (None, _) => true,
        (Some(_), None) => false,
        (Some(x), Some(y)) => lex_le(x@, y@),
    }
}

/// `a` may stand before `b` in a listing sorted by `order`:
/// by name, in the dictionary order of the lower-case names;
/// by size, larger first;
/// by time of modification, later first and entries without a time last;
/// by type, directories before files and, within each, in the dictionary
/// order of the extensions as they are written.
pub open spec fn entry_le(order: SortBy, a: FileEntry, b: FileEntry) -> bool {
    match order {
        SortBy::Name => lex_le(lowercased(a.name@), lowercased(b.name@)),
        SortBy::Size => a.size >= b.size,
        SortBy::Modified => stamp_le(b.modified, a.modified),
        SortBy::Type => if a.is_dir != b.is_dir {
            a.is_dir
        } else {
            extension_le(a.extension, b.extension)
        },
    }
}

/// Every entry may stand before all that follow it.
pub open spec fn ordered(order: SortBy, entries: Seq<FileEntry>) -> bool {
    forall|i: int, j: int|
        0 <= i < j < entries.len() ==> entry_le(order, #[trigger] entries[i], #[trigger] entries[j])
}

/// Where `e` goes in the sorted sequence `sorted`: behind the last entry
/// that may stand before it, so behind its equals.
pub open spec fn insert_index(order: SortBy, sorted: Seq<FileEntry>, e: FileEntry) -> int
    decreases sorted.len(),
{
    if sorted.len() == 0 || entry_le(order, sorted.last(), e) {
        sorted.len() as int
    } else {
        insert_index(order, sorted.drop_last(), e)
    }
}

/// The entries sorted by `order`. Entries that the order does not tell
/// apart keep the order in which they came.
pub open spec fn sorted_entries(order: SortBy, entries: Seq<FileEntry>) -> Seq<FileEntry>
    decreases entries.len(),
{
    if entries.len() == 0 {
        entries
    } else {
        let before = sorted_entries(order, entries.drop_last());
        before.insert(insert_index(order, before, entries.last()), entries.last())
    }
}

/// `insert_index` is the one index that has an entry which may stand before
/// `e` directly in front of it, or nothing, and behind it only entries that
/// may not.
pub proof fn lemma_insert_index(order: SortBy, sorted: Seq<FileEntry>, e: FileEntry, at: int)
    requires
        0 <= at <= sorted.len(),
        at > 0 ==> entry_le(order, sorted[at - 1], e),
        forall|k: int| at <= k < sorted.len() ==> !entry_le(order, #[trigger] sorted[k], e),
    ensures
        insert_index(order, sorted, e) == at,
    decreases sorted.len(),
{
    if at < sorted.len() {
        let shorter = sorted.drop_last();
        assert(!entry_le(order, sorted[sorted.len() - 1], e));
        assert forall|k: int| at <= k < shorter.len() implies !entry_le(
            order,
            #[trigger] shorter[k],
            e,
        ) by {
            assert(shorter[k] == sorted[k]);
        }
        if at > 0 {
            assert(shorter[at - 1] == sorted[at - 1]);
        }
        lemma_insert_index(order, shorter, e, at);
    }
}

/// What `insert_index` gives lies in the sequence or at its end, with an
/// entry that may stand before `e` in front of it, if any, and no such entry
/// behind it.
pub proof fn lemma_insert_index_bounds(order: SortBy, sorted: Seq<FileEntry>, e: FileEntry)
    ensures
        0 <= insert_index(order, sorted, e) <= sorted.len(),
        insert_index(order, sorted, e) > 0 ==> entry_le(
            order,
            sorted[insert_index(order, sorted, e) - 1],
            e,
        ),
        forall|k: int|
            insert_index(order, sorted, e) <= k < sorted.len() ==> !entry_le(
                order,
                #[trigger] sorted[k],
                e,
            ),
    decreases sorted.len(),
{
    if sorted.len() == 0 || entry_le(order, sorted.last(), e) {
    } else {
        let shorter = sorted.drop_last();
        lemma_insert_index_bounds(order, shorter, e);
        let at = insert_index(order, shorter, e);
        if at > 0 {
            assert(shorter[at - 1] == sorted[at - 1]);
        }
        assert forall|k: int| at <= k < sorted.len() implies !entry_le(
            order,
            #[trigger] sorted[k],
            e,
        ) by {
            if k < shorter.len() {
                assert(shorter[k] == sorted[k]);
            }
        }
    }
}

/// Of two entries one may stand before the other.
pub proof fn lemma_entry_le_total(order: SortBy, a: FileEntry, b: FileEntry)
    ensures
        entry_le(order, a, b) || entry_le(order, b, a),
{
    match order {
        SortBy::Name => {
            lemma_lex_le_total(lowercased(a.name@), lowercased(b.name@));
        },
        SortBy::Size => {},
        SortBy::Modified => {},
        SortBy::Type => {
            if let (Some(x), Some(y)) = (a.extension, b.extension) {
                lemma_lex_le_total(x@, y@);
            }
        },
    }
}

/// What may stand before an entry may stand before all that the entry may
/// stand before.
pub proof fn lemma_entry_le_transitive(order: SortBy, a: FileEntry, b: FileEntry, c: FileEntry)
    requires
        entry_le(order, a, b),
        entry_le(order, b, c),
    ensures
        entry_le(order, a, c),
{
    match order {
        SortBy::Name => {
            lemma_lex_le_transitive(
                lowercased(a.name@),
                lowercased(b.name@),
                lowercased(c.name@),
            );
        },
        SortBy::Size => {},
        SortBy::Modified => {},
        SortBy::Type => {
            if let (Some(x), Some(y), Some(z)) = (a.extension, b.extension, c.extension) {
                if a.is_dir == b.is_dir && b.is_dir == c.is_dir {
                    lemma_lex_le_transitive(x@, y@, z@);
                }
            }
        },
    }
}

/// A sorted sequence is ordered: each of its entries may stand before all
/// that follow it.
pub proof fn lemma_sorted_is_ordered(order: SortBy, entries: Seq<FileEntry>)
    ensures
        ordered(order, sorted_entries(order, entries)),
    decreases entries.len(),
{
    if entries.len() > 0 {
        let before = sorted_entries(order, entries.drop_last());
        let e = entries.last();
        let at = insert_index(order, before, e);
        let after = before.insert(at, e);
        lemma_sorted_is_ordered(order, entries.drop_last());
        lemma_insert_index_bounds(order, before, e);
        assert forall|i: int, j: int| 0 <= i < j < after.len() implies entry_le(
            order,
            #[trigger] after[i],
            #[trigger] after[j],
        ) by {
            if j < at {
                assert(after[i] == before[i] && after[j] == before[j]);
            } else if j == at {
                assert(after[i] == before[i]);
                if i < at - 1 {
                    lemma_entry_le_transitive(order, before[i], before[at - 1], e);
                }
            } else if i < at {
                assert(after[i] == before[i] && after[j] == before[j - 1]);
            } else if i == at {
                assert(after[j] == before[j - 1]);
                lemma_entry_le_total(order, before[j - 1], e);
            } else {
                assert(after[i] == before[i - 1] && after[j] == before[j - 1]);
            }
        }
    }
}

/// Sorting neither adds nor drops an entry: the sorted sequence holds each
/// entry as often as the unsorted one.
pub proof fn lemma_sorted_is_permutation(order: SortBy, entries: Seq<FileEntry>)
    ensures
        sorted_entries(order, entries).to_multiset() == entries.to_multiset(),
        sorted_entries(order, entries).len() == entries.len(),
    decreases entries.len(),
{
    broadcast use {to_multiset_insert, to_multiset_build};

    if entries.len() > 0 {
        let shorter = entries.drop_last();
        let before = sorted_entries(order, shorter);
        let e = entries.last();
        lemma_sorted_is_permutation(order, shorter);
        lemma_insert_index_bounds(order, before, e);
        assert(shorter.push(e) == entries);
    }
}

/// The order does not tell `a` and `b` apart: each may stand before the
/// other.
pub open spec fn tied(order: SortBy, a: FileEntry, b: FileEntry) -> bool {
    entry_le(order, a, b) && entry_le(order, b, a)
}

/// The entries that the order does not tell apart from `like`, in the order
/// in which they stand.
pub open spec fn peers(order: SortBy, entries: Seq<FileEntry>, like: FileEntry) -> Seq<FileEntry> {
    entries.filter(|e: FileEntry| tied(order, e, like))
}

/// Sorting is stable: entries that the order does not tell apart stand in
/// the sorted sequence as they stood before. With the two laws above this
/// leaves one sequence only that a sort by `order` can give.
pub proof fn lemma_sorted_is_stable(order: SortBy, entries: Seq<FileEntry>, like: FileEntry)
    ensures
        peers(order, sorted_entries(order, entries), like) == peers(order, entries, like),
    decreases entries.len(),
{
    let same = |e: FileEntry| tied(order, e, like);
    if entries.len() == 0 {
    } else {
        let shorter = entries.drop_last();
        let e = entries.last();
        let before = sorted_entries(order, shorter);
        let at = insert_index(order, before, e);
        let front = before.take(at);
        let back = before.skip(at);
        lemma_sorted_is_stable(order, shorter, like);
        lemma_insert_index_bounds(order, before, e);
        assert(shorter.push(e) == entries);
        shorter.lemma_filter_push(e, same);
        assert(front + back == before);
        Seq::filter_distributes_over_add(front, back, same);
        assert(before.insert(at, e) == front.push(e) + back);
        Seq::filter_distributes_over_add(front.push(e), back, same);
        front.lemma_filter_push(e, same);
        if same(e) {
            assert forall|k: int| 0 <= k < back.len() implies !same(#[trigger] back[k]) by {
                assert(back[k] == before[at + k]);
                if same(back[k]) {
                    lemma_entry_le_transitive(order, back[k], like, e);
                }
            }
            assert(back.all(|x: FileEntry| !same(x)));
            back.lemma_all_neg_filter_empty(same);
            assert(back.filter(same) == Seq::<FileEntry>::empty());
            assert(front.filter(same) + back.filter(same) == front.filter(same));
            assert(front.filter(same).push(e) + back.filter(same) == front.filter(same).push(e));
        }
    }
}

/// Sorted by size, no entry is larger than one before it; sorted by name,
/// the lower-case names stand in dictionary order, so that case decides
/// nothing.
pub proof fn lemma_size_and_name_orders(entries: Seq<FileEntry>)
    ensures
        forall|i: int, j: int|
            0 <= i < j < entries.len() ==> (#[trigger] sorted_entries(SortBy::Size, entries)[i]).size
                >= (#[trigger] sorted_entries(SortBy::Size, entries)[j]).size,
        forall|i: int, j: int|
            0 <= i < j < entries.len() ==> lex_le(
                lowercased((#[trigger] sorted_entries(SortBy::Name, entries)[i]).name@),
                lowercased((#[trigger] sorted_entries(SortBy::Name, entries)[j]).name@),
            ),
{
    lemma_sorted_is_ordered(SortBy::Size, entries);
    lemma_sorted_is_permutation(SortBy::Size, entries);
    lemma_sorted_is_ordered(SortBy::Name, entries);
    lemma_sorted_is_permutation(SortBy::Name, entries);
}

/// Whether `a` is not later than `b`.
fn stamp_not_later(a: &Option<Timestamp>, b: &Option<Timestamp>) -> (le: bool)
    ensures
        le == stamp_le(*a, *b),
{
    match (a, b) {
        (None, _) => true,
        (Some(_), None) => false,
        (Some(x), Some(y)) => x.secs < y.secs || (x.secs == y.secs && x.nanos <= y.nanos),
    }
}

/// Whether `a` is not after `b` in the dictionary.
fn extension_not_after(a: &Option<String>, b: &Option<String>) -> (le: bool)
    ensures
        le == extension_le(*a, *b),
{
    match (a, b) {
        (None, _) => true,
        (Some(_), None) => false,
        (Some(x), Some(y)) => text_le(x.as_str(), y.as_str()),
    }
}

/// Whether `a` may stand before `b` in a listing sorted by `order`.
pub fn may_precede(order: SortBy, a: &FileEntry, b: &FileEntry) -> (le: bool)
    ensures
        le == entry_le(order, *a, *b),
{
    match order {
        SortBy::Name => {
            let x = lowercase(a.name.as_str());
            let y = lowercase(b.name.as_str());
            text_le(x.as_str(), y.as_str())
        },
        SortBy::Size => a.size >= b.size,
        SortBy::Modified => stamp_not_later(&b.modified, &a.modified),
        SortBy::Type => if a.is_dir != b.is_dir {
            a.is_dir
        } else {
            extension_not_after(&a.extension, &b.extension)
        },
    }
}

/// Sorts `entries` by `order`, leaving entries that the order does not tell
/// apart in the order in which they came.
pub fn sort_entries(entries: &mut Vec<FileEntry>, order: SortBy)
    ensures
        final(entries)@ == sorted_entries(order, old(entries)@),
{
    let ghost given = entries@;
    let mut done: usize = 0;
    while done < entries.len()
        invariant
            0 <= done <= entries.len(),
            entries.len() == given.len(),
            entries@.take(done as int) == sorted_entries(order, given.take(done as int)),
            entries@.skip(done as int) == given.skip(done as int),
        decreases entries.len() - done,
    {
        let ghost before = entries@.take(done as int);
        let ghost rest = given.skip(done + 1);
        assert(entries@[done as int] == given[done as int]) by {
            assert(entries@.skip(done as int)[0] == given.skip(done as int)[0]);
        }
        assert(entries@.skip(done + 1) == rest) by {
            assert(entries@.skip(done as int).skip(1) == entries@.skip(done + 1));
            assert(given.skip(done as int).skip(1) == given.skip(done + 1));
        }
        let e = entries.remove(done);
        assert(entries@.skip(done as int) == rest);
        let mut at: usize = done;
        while at > 0 && !may_precede(order, &entries[at - 1], &e)
            invariant
                0 <= at <= done < given.len(),
                entries.len() == given.len() - 1,
                entries@.take(done as int) == before,
                entries@.skip(done as int) == rest,
                forall|k: int| at <= k < done ==> !entry_le(order, #[trigger] before[k], e),
            decreases at,
        {
            assert(entries@[at - 1] == before[at - 1]);
            at -= 1;
        }
        proof {
            if at > 0 {
                assert(entries@[at - 1] == before[at - 1]);
            }
            lemma_insert_index(order, before, e, at as int);
            assert(given.take(done + 1).drop_last() == given.take(done as int));
            assert(given.take(done + 1).last() == e);
        }
        entries.insert(at, e);
        proof {
            assert(entries@.take(done + 1) == before.insert(at as int, e));
            assert(entries@.skip(done + 1) == rest);
        }
        done += 1;
    }
    assert(entries@.take(done as int) == entries@);
    assert(given.take(done as int) == given);
}

} // verus!
