//! Weighted tables: insertion-ordered maps from a value's name to its weight.
//!
//! The map itself is `indexmap::IndexMap`; this module states what the
//! library relies on from it.

use indexmap::IndexMap;
use vstd::prelude::*;

verus! {

#[verifier::external_type_specification]
#[verifier::external_body]
#[verifier::reject_recursive_types(K)]
#[verifier::reject_recursive_types(V)]
#[verifier::reject_recursive_types(S)]
pub struct ExIndexMap<K, V, S>(IndexMap<K, V, S>);

/// What a table holds, as a sequence: each value's name with its weight.
pub type TableView = Seq<(Seq<char>, u64)>;

/// The entries of a map, key and weight, in the order the map keeps them:
/// that in which their keys were first inserted.
pub uninterp spec fn table_entries(table: IndexMap<String, u64>) -> Seq<(Seq<char>, u64)>;

/// The position of `key` among the keys of `entries`, if it is one of them.
pub open spec fn position_of(entries: Seq<(Seq<char>, u64)>, key: Seq<char>) -> Option<int>
    decreases entries.len(),
{
    if entries.len() == 0 {
        None
    } else if entries.last().0 == key && position_of(entries.drop_last(), key) is None {
        Some(entries.len() - 1)
    } else {
        position_of(entries.drop_last(), key)
    }
}

/// `entries` after `key` has been given `weight`: a known key keeps its place
/// and takes the new weight, a new key goes last.
pub open spec fn with_entry(entries: Seq<(Seq<char>, u64)>, key: Seq<char>, weight: u64) -> Seq<
    (Seq<char>, u64),
> {
    match position_of(entries, key) {
        Some(i) => entries.update(i, (key, weight)),
        None => entries.push((key, weight)),
    }
}

/// `IndexMap::new`. Claimed of it: the map has no entries.
#[verifier::external_body]
pub(crate) fn new_table() -> (table: IndexMap<String, u64>)
    ensures
        table_entries(table) == Seq::<(Seq<char>, u64)>::empty(),
{
    IndexMap::new()
}

/// `IndexMap::insert`. Claimed of it: a key that the map holds keeps its
/// place in the order and has its weight replaced, the old weight being
/// returned; a new key is put last and `None` is returned.
#[verifier::external_body]
pub(crate) fn table_insert(
    table: &mut IndexMap<String, u64>,
    key: String,
    weight: u64,
) -> (previous: Option<u64>)
    ensures
        table_entries(*final(table)) == with_entry(table_entries(*old(table)), key@, weight),
        previous == match position_of(table_entries(*old(table)), key@) {
            Some(i) => Some(table_entries(*old(table))[i].1),
            None => None,
        },
{
    table.insert(key, weight)
}

/// `IndexMap::len`. Claimed of it: it gives the number of entries.
#[verifier::external_body]
pub(crate) fn table_len(table: &IndexMap<String, u64>) -> (n: usize)
    ensures
        n == table_entries(*table).len(),
{
    table.len()
}

/// `IndexMap::get_index`, with the key copied. Claimed of it: it gives the
/// entry at `index` in the order of the map, and `None` from the number of
/// entries on.
#[verifier::external_body]
pub(crate) fn table_entry(table: &IndexMap<String, u64>, index: usize) -> (entry: Option<
    (String, u64),
>)
    ensures
        entry is Some <==> index < table_entries(*table).len(),
        entry matches Some(e) ==> e.0@ == table_entries(*table)[index as int].0 && e.1
            == table_entries(*table)[index as int].1,
{
    table.get_index(index).map(|(key, weight)| (key.clone(), *weight))
}

/// `IndexMap::clone`. Claimed of it: the copy has the same entries in the
/// same order.
#[verifier::external_body]
pub(crate) fn table_clone(table: &IndexMap<String, u64>) -> (copy: IndexMap<String, u64>)
    ensures
        table_entries(copy) == table_entries(*table),
{
    table.clone()
}

} // verus!
