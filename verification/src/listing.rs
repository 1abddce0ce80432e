//! The order of a directory listing: entries sorted by name, entries of the
//! same name kept in the order in which they were read.

use vstd::prelude::*;
use crate::entry::{
    entries_model, lemma_bytes_le_reflexive, lemma_bytes_le_total, lemma_bytes_le_transitive,
    name_le, name_precedes, Entry, EntryModel,
};
use vstd::utf8::encode_utf8;

verus! {

/// No entry comes after one whose name is greater.
pub open spec fn is_sorted(entries: Seq<EntryModel>) -> bool {
    forall|i: int, j: int|
        0 <= i < j < entries.len() ==> name_le(
            #[trigger] entries[i].name,
            #[trigger] entries[j].name,
        )
}

/// Where `entry` goes in a sorted sequence: before the first entry whose
/// name is not smaller than its own.
pub open spec fn insert_index(entry: EntryModel, sorted: Seq<EntryModel>) -> int
    decreases sorted.len(),
{
    if sorted.len() == 0 || name_le(entry.name, sorted[0].name) {
        0
    } else {
        1 + insert_index(entry, sorted.drop_first())
    }
}

/// The entries in the order of a listing: sorted by name, and entries of one
/// name in the order in which `entries` has them.
pub open spec fn sorted_by_name(entries: Seq<EntryModel>) -> Seq<EntryModel>
    decreases entries.len(),
{
    if entries.len() == 0 {
        Seq::empty()
    } else {
        let rest = sorted_by_name(entries.drop_first());
        rest.insert(insert_index(entries[0], rest), entries[0])
    }
}

/// The entries of a sequence that have the sort key `key`.
pub open spec fn with_key(entries: Seq<EntryModel>, key: Seq<u8>) -> Seq<EntryModel> {
    entries.filter(|e: EntryModel| encode_utf8(e.name) == key)
}

/// `insert_index` is the one position that has only smaller names before
/// it and a name that is not smaller at it.
pub proof fn lemma_insert_index(entry: EntryModel, sorted: Seq<EntryModel>, p: int)
    requires
        0 <= p <= sorted.len(),
        forall|i: int| 0 <= i < p ==> !name_le(entry.name, #[trigger] sorted[i].name),
        p < sorted.len() ==> name_le(entry.name, sorted[p].name),
    ensures
        insert_index(entry, sorted) == p,
    decreases p,
{
    if p > 0 {
        let rest = sorted.drop_first();
        assert forall|i: int| 0 <= i < p - 1 implies !name_le(
            entry.name,
            #[trigger] rest[i].name,
        ) by {
            assert(rest[i] == sorted[i + 1]);
        }
        lemma_insert_index(entry, rest, p - 1);
    }
}

/// What `insert_index` says of the entries around it.
pub proof fn lemma_insert_index_bounds(entry: EntryModel, sorted: Seq<EntryModel>)
    ensures
        0 <= insert_index(entry, sorted) <= sorted.len(),
        forall|i: int|
            0 <= i < insert_index(entry, sorted) ==> !name_le(
                entry.name,
                #[trigger] sorted[i].name,
            ),
        insert_index(entry, sorted) < sorted.len() ==> name_le(
            entry.name,
            sorted[insert_index(entry, sorted)].name,
        ),
    decreases sorted.len(),
{
    if !(sorted.len() == 0 || name_le(entry.name, sorted[0].name)) {
        let rest = sorted.drop_first();
        lemma_insert_index_bounds(entry, rest);
        let p = insert_index(entry, sorted);
        assert forall|i: int| 0 <= i < p implies !name_le(
            entry.name,
            #[trigger] sorted[i].name,
        ) by {
            if i > 0 {
                assert(sorted[i] == rest[i - 1]);
            }
        }
    }
}

/// Putting an entry at its `insert_index` keeps a sorted sequence sorted.
pub proof fn lemma_insert_keeps_sorted(entry: EntryModel, sorted: Seq<EntryModel>)
    requires
        is_sorted(sorted),
    ensures
        is_sorted(sorted.insert(insert_index(entry, sorted), entry)),
{
    let p = insert_index(entry, sorted);
    let out = sorted.insert(p, entry);
    lemma_insert_index_bounds(entry, sorted);
    assert forall|i: int, j: int| 0 <= i < j < out.len() implies name_le(
        #[trigger] out[i].name,
        #[trigger] out[j].name,
    ) by {
        if j == p {
            // The entry comes after the smaller names.
            lemma_bytes_le_total(encode_utf8(entry.name), encode_utf8(sorted[i].name));
        } else if i == p && j > p + 1 {
            // The entry comes before what follows the name it stopped at.
            lemma_bytes_le_transitive(
                encode_utf8(entry.name),
                encode_utf8(sorted[p].name),
                encode_utf8(sorted[j - 1].name),
            );
        }
    }
}

/// A filter that no entry passes leaves nothing.
proof fn lemma_filter_nothing(entries: Seq<EntryModel>, pred: spec_fn(EntryModel) -> bool)
    requires
        forall|i: int| 0 <= i < entries.len() ==> !pred(#[trigger] entries[i]),
    ensures
        entries.filter(pred) =~= Seq::empty(),
    decreases entries.len(),
{
    reveal(Seq::filter);
    if entries.len() > 0 {
        let front = entries.drop_last();
        assert forall|i: int| 0 <= i < front.len() implies !pred(#[trigger] front[i]) by {
            assert(front[i] == entries[i]);
        }
        lemma_filter_nothing(front, pred);
    }
}

/// Putting an entry at its `insert_index` puts it before every entry of a
/// sorted sequence that has its sort key, and leaves the entries of every
/// other key as they were.
pub proof fn lemma_insert_is_stable(entry: EntryModel, sorted: Seq<EntryModel>, key: Seq<u8>)
    ensures
        with_key(sorted.insert(insert_index(entry, sorted), entry), key) == with_key(
            seq![entry],
            key,
        ) + with_key(sorted, key),
{
    let p = insert_index(entry, sorted);
    let pred = |e: EntryModel| encode_utf8(e.name) == key;
    lemma_insert_index_bounds(entry, sorted);
    let before = sorted.subrange(0, p);
    let after = sorted.subrange(p, sorted.len() as int);
    assert(sorted =~= before + after);
    assert(sorted.insert(p, entry) =~= before + seq![entry] + after);
    if pred(entry) {
        // Every name before the position is smaller, so none has the key.
        assert forall|i: int| 0 <= i < before.len() implies !pred(#[trigger] before[i]) by {
            if pred(before[i]) {
                lemma_bytes_le_reflexive(key);
            }
        }
        lemma_filter_nothing(before, pred);
    } else {
        lemma_filter_nothing(seq![entry], pred);
    }
}

/// A listing in its order is sorted by name, holds the entries it was made
/// from, each as often as they do, and keeps the entries of every one name
/// in the order in which they were given.
pub proof fn lemma_sorted_by_name(entries: Seq<EntryModel>)
    ensures
        is_sorted(sorted_by_name(entries)),
        sorted_by_name(entries).len() == entries.len(),
        sorted_by_name(entries).to_multiset() == entries.to_multiset(),
        forall|key: Seq<u8>| #[trigger]
            with_key(sorted_by_name(entries), key) == with_key(entries, key),
    decreases entries.len(),
{
    broadcast use vstd::seq_lib::group_to_multiset_ensures;

    if entries.len() > 0 {
        let first = entries[0];
        let tail = entries.drop_first();
        let rest = sorted_by_name(tail);
        let p = insert_index(first, rest);
        lemma_sorted_by_name(tail);
        lemma_insert_index_bounds(first, rest);
        lemma_insert_keeps_sorted(first, rest);
        assert(entries =~= seq![first] + tail);
        vstd::seq_lib::lemma_multiset_commutative(seq![first], tail);
        assert(seq![first].to_multiset() =~= vstd::multiset::Multiset::empty().insert(first));
        assert forall|key: Seq<u8>| #[trigger]
            with_key(sorted_by_name(entries), key) == with_key(entries, key) by {
            let pred = |e: EntryModel| encode_utf8(e.name) == key;
            lemma_insert_is_stable(first, rest, key);
        }
    }
}

/// Puts a listing in order: by name, and entries of one name in the order
/// in which they were read. Every entry read is kept, as often as it was
/// read.
pub fn sort_entries(listing: Vec<Entry>) -> (sorted: Vec<Entry>)
    ensures
        entries_model(sorted@) == sorted_by_name(entries_model(listing@)),
        is_sorted(entries_model(sorted@)),
        sorted.len() == listing.len(),
        entries_model(sorted@).to_multiset() == entries_model(listing@).to_multiset(),
        forall|key: Seq<u8>| #[trigger]
            with_key(entries_model(sorted@), key) == with_key(entries_model(listing@), key),
{
    let ghost given = entries_model(listing@);
    let mut input = listing;
    let mut sorted: Vec<Entry> = Vec::new();
    while input.len() > 0
        invariant
            input.len() <= given.len(),
            entries_model(input@) == given.take(input.len() as int),
            entries_model(sorted@) == sorted_by_name(given.skip(input.len() as int)),
        decreases input.len(),
    {
        let ghost before = input@;
        let ghost done = entries_model(sorted@);
        let entry = input.pop().unwrap();
        let mut p: usize = 0;
        while p < sorted.len() && !name_precedes(entry.name.as_str(), sorted[p].name.as_str())
            invariant
                p <= sorted.len(),
                entries_model(sorted@) == done,
                forall|i: int| 0 <= i < p ==> !name_le(entry@.name, #[trigger] done[i].name),
            decreases sorted.len() - p,
        {
            p += 1;
        }
        proof {
            let n = input.len() as int;
            lemma_insert_index(entry@, done, p as int);
            assert(entry@ == entries_model(before)[n]);
            assert(given.skip(n).drop_first() =~= given.skip(n + 1));
        }
        sorted.insert(p, entry);
    }
    proof {
        assert(given.skip(0) =~= given);
        lemma_sorted_by_name(given);
    }
    sorted
}

} // verus!
