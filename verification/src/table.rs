//! The field table of a class: which of its records give a field, and in
//! which order.

use vstd::prelude::*;
use crate::layout::{field_address, lemma_records_apart, lemma_wrap_inside, FIELD_STRIDE};

verus! {

/// The addresses of the first `count` records of the field table at `table`,
/// in the order of the table.
pub open spec fn candidate_addresses(table: usize, count: nat) -> Seq<usize> {
    Seq::new(count, |index: int| field_address(table, index))
}

/// The entries that stand for a record: those that are not null, in the
/// order in which they came.
pub open spec fn present(entries: Seq<usize>) -> Seq<usize> {
    entries.filter(|entry: usize| entry != 0)
}

/// How many of `entries` are null.
pub open spec fn null_count(entries: Seq<usize>) -> nat {
    entries.filter(|entry: usize| entry == 0).len()
}

/// The positions in `entries` of the entries that are not null, ascending.
pub open spec fn present_positions(entries: Seq<usize>) -> Seq<int>
    decreases entries.len(),
{
    if entries.len() == 0 {
        Seq::empty()
    } else if entries.last() != 0 {
        present_positions(entries.drop_last()).push(entries.len() - 1)
    } else {
        present_positions(entries.drop_last())
    }
}

/// The addresses of the fields of a class whose table starts at `table` and
/// that declares `count` fields.
pub open spec fn field_addresses(table: usize, count: nat) -> Seq<usize> {
    present(candidate_addresses(table, count))
}

/// Of a table, each entry is either kept or null: the kept entries together
/// with the null ones are as many as the table holds.
pub proof fn lemma_present_len(entries: Seq<usize>)
    ensures
        present(entries).len() + null_count(entries) == entries.len(),
    decreases entries.len(),
{
    reveal(Seq::filter);
    if entries.len() > 0 {
        lemma_present_len(entries.drop_last());
    }
}

/// The kept entries are the entries that are not null, each once and in the
/// order of the table: entry number `k` of them is the entry at the `k`-th of
/// the ascending positions that hold no null.
pub proof fn lemma_present_order(entries: Seq<usize>)
    ensures
        present_positions(entries).len() == present(entries).len(),
        forall|k: int|
            0 <= k < present(entries).len() ==> {
                &&& 0 <= #[trigger] present_positions(entries)[k] < entries.len()
                &&& present(entries)[k] == entries[present_positions(entries)[k]]
                &&& present(entries)[k] != 0
            },
        forall|j: int, k: int|
            0 <= j < k < present(entries).len() ==> #[trigger] present_positions(entries)[j]
                < #[trigger] present_positions(entries)[k],
        forall|i: int|
            0 <= i < entries.len() && entries[i] != 0 ==> present_positions(entries).contains(i),
    decreases entries.len(),
{
    reveal(Seq::filter);
    if entries.len() > 0 {
        let shorter = entries.drop_last();
        lemma_present_order(shorter);
        let positions = present_positions(entries);
        assert forall|i: int| 0 <= i < entries.len() && entries[i] != 0 implies positions.contains(
            i,
        ) by {
            if i < shorter.len() {
                assert(shorter[i] == entries[i]);
                let k = choose|k: int|
                    0 <= k < present_positions(shorter).len() && present_positions(shorter)[k] == i;
                assert(positions[k] == i);
            } else {
                assert(positions[positions.len() - 1] == i);
            }
        }
    }
}

/// A walk over a table of `count` records keeps `count` fields less the
/// records whose address is null, in the order of the table: field number `k`
/// stands at the record whose index is the `k`-th of the ascending indices
/// that were kept.
pub proof fn lemma_field_addresses(table: usize, count: nat)
    ensures
        field_addresses(table, count).len() + null_count(candidate_addresses(table, count))
            == count,
        forall|k: int|
            0 <= k < field_addresses(table, count).len() ==> {
                let index = present_positions(candidate_addresses(table, count))[k];
                &&& 0 <= index < count
                &&& #[trigger] field_addresses(table, count)[k] == field_address(table, index)
                &&& field_addresses(table, count)[k] != 0
            },
        forall|j: int, k: int|
            0 <= j < k < field_addresses(table, count).len() ==> #[trigger] present_positions(
                candidate_addresses(table, count),
            )[j] < #[trigger] present_positions(candidate_addresses(table, count))[k],
        forall|index: int|
            0 <= index < count && field_address(table, index) != 0 ==> present_positions(
                candidate_addresses(table, count),
            ).contains(index),
{
    let candidates = candidate_addresses(table, count);
    lemma_present_len(candidates);
    lemma_present_order(candidates);
    assert forall|index: int|
        0 <= index < count && field_address(table, index) != 0 implies present_positions(
        candidates,
    ).contains(index) by {
        assert(candidates[index] == field_address(table, index));
    }
}

/// Where no entry is null, every entry is kept.
pub proof fn lemma_present_keeps_all(entries: Seq<usize>)
    requires
        forall|i: int| 0 <= i < entries.len() ==> entries[i] != 0,
    ensures
        present(entries) == entries,
    decreases entries.len(),
{
    reveal(Seq::filter);
    if entries.len() > 0 {
        lemma_present_keeps_all(entries.drop_last());
    }
}

/// A table that does not start at null and ends inside the address space
/// gives a field for each of its records, a stride apart from `table` on.
pub proof fn lemma_table_inside_keeps_all(table: usize, count: nat)
    requires
        table != 0,
        table + count * FIELD_STRIDE <= usize::MAX + 1,
    ensures
        field_addresses(table, count) == Seq::new(
            count,
            |index: int| (table + index * FIELD_STRIDE) as usize,
        ),
{
    let candidates = candidate_addresses(table, count);
    assert forall|index: int| 0 <= index < count implies #[trigger] candidates[index] == table
        + index * FIELD_STRIDE by {
        lemma_wrap_inside(table + index * FIELD_STRIDE);
    }
    lemma_present_keeps_all(candidates);
}

/// Among entries that differ from one another, at most one is null.
pub proof fn lemma_distinct_entries_one_null(entries: Seq<usize>)
    requires
        forall|i: int, j: int| 0 <= i < j < entries.len() ==> entries[i] != entries[j],
    ensures
        null_count(entries) <= 1,
        (forall|i: int| 0 <= i < entries.len() ==> entries[i] != 0) ==> null_count(entries) == 0,
    decreases entries.len(),
{
    reveal(Seq::filter);
    if entries.len() > 0 {
        let shorter = entries.drop_last();
        lemma_distinct_entries_one_null(shorter);
        if entries.last() == 0 {
            assert forall|i: int| 0 <= i < shorter.len() implies shorter[i] != 0 by {
                assert(entries[i] != entries[entries.len() - 1]);
            }
        }
    }
}

/// A walk drops at most one record of a table: at most one of the addresses
/// that a count can reach is null.
pub proof fn lemma_at_most_one_dropped(table: usize, count: nat)
    requires
        count <= u16::MAX,
    ensures
        null_count(candidate_addresses(table, count)) <= 1,
        count <= field_addresses(table, count).len() + 1,
{
    let candidates = candidate_addresses(table, count);
    assert forall|i: int, j: int| 0 <= i < j < candidates.len() implies candidates[i]
        != candidates[j] by {
        lemma_records_apart(table, i, j);
    }
    lemma_distinct_entries_one_null(candidates);
    lemma_present_len(candidates);
}

/// A class that declares no field has none, wherever its table starts.
pub proof fn lemma_no_records_no_fields(table: usize)
    ensures
        field_addresses(table, 0) == Seq::<usize>::empty(),
{
}

} // verus!
