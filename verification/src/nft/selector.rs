//! The attribute selector: one trait per catalog group, drawn by weight from a
//! stream that the seed alone determines.
//!
//! Groups are taken in catalog order. For each, the first keyed entry whose
//! predicate the traits selected so far satisfy supplies the table to draw
//! from; if there is none, the group's standard entries do, together with the
//! tables under the fallback key.

use crate::nft::config::{
    fallback_key, Attribute, AttributeView, Config, ConfigView, EntryView, Group, GroupView,
};
use crate::nft::draw::{
    draw_index, generator_words, has_positive, seeded_generator, seeded_words, weighted_draw,
};
use crate::nft::metadata::{traits_view, Trait, TraitView};
use crate::nft::predicate::{clause_holds, predicate_holds, predicate_satisfied};
use crate::nft::table::{
    new_table, table_clone, table_entries, table_entry, table_insert, table_len, with_entry,
    TableView,
};
use crate::text::{lemma_index_of_is, same_text, split, strip_suffix, without_suffix};
use indexmap::IndexMap;
use vstd::prelude::*;

verus! {

/// Why no trait could be drawn for a group: the table it resolved to had no
/// entry, or none with a positive weight. `group` is the group's position in
/// the catalog.
#[derive(Debug, Clone, Copy, PartialEq, Eq, Structural)]
pub enum RandomizationError {
    EmptyTable { group: usize },
    NoPositiveWeight { group: usize },
}

/// The file extension that a value's name may carry and a trait's value does
/// not.
pub open spec fn layer_extension() -> Seq<char> {
    seq!['.', 'p', 'n', 'g']
}

/// Whether `entry` is a keyed entry whose predicate the selected traits
/// satisfy. The fallback key is no predicate.
pub open spec fn gate_open(entry: EntryView, selected: Seq<TraitView>) -> bool {
    entry.attribute is Keyed && entry.key != fallback_key() && predicate_holds(entry.key, selected)
}

/// The first position from `from` on whose gate is open, or the number of
/// entries.
pub open spec fn first_open(entries: Seq<EntryView>, selected: Seq<TraitView>, from: int) -> int
    decreases entries.len() - from,
{
    if from >= entries.len() {
        entries.len() as int
    } else if gate_open(entries[from], selected) {
        from
    } else {
        first_open(entries, selected, from + 1)
    }
}

/// `table` after each entry of `extra` has been inserted, in order.
pub open spec fn merged(table: TableView, extra: TableView) -> TableView
    decreases extra.len(),
{
    if extra.len() == 0 {
        table
    } else {
        with_entry(merged(table, extra.drop_last()), extra.last().0, extra.last().1)
    }
}

/// What a group offers when no predicate holds: its standard entries and the
/// contents of the tables under the fallback key, inserted in catalog order.
pub open spec fn fallback(entries: Seq<EntryView>) -> TableView
    decreases entries.len(),
{
    if entries.len() == 0 {
        Seq::empty()
    } else {
        let before = fallback(entries.drop_last());
        let entry = entries.last();
        match entry.attribute {
            AttributeView::Standard(weight) => with_entry(before, entry.key, weight),
            AttributeView::Keyed(table) => if entry.key == fallback_key() {
                merged(before, table)
            } else {
                before
            },
        }
    }
}

/// The table a group is drawn from, given the traits selected before it.
pub open spec fn subtable(entries: Seq<EntryView>, selected: Seq<TraitView>) -> TableView {
    let i = first_open(entries, selected, 0);
    if 0 <= i < entries.len() {
        entries[i].attribute->Keyed_0
    } else {
        fallback(entries)
    }
}

/// The weights of a table, in its order.
pub open spec fn weights_of(table: TableView) -> Seq<u64> {
    table.map_values(|e: (Seq<char>, u64)| e.1)
}

/// The trait recorded when entry `index` of `table` is drawn for `group`.
pub open spec fn drawn_trait(group: Seq<char>, table: TableView, index: int) -> TraitView {
    TraitView {
        trait_type: group,
        value: without_suffix(table[index].0, layer_extension()),
        rarity: table[index].1,
    }
}

/// The error for a table that nothing can be drawn from.
pub open spec fn failure(group: int, table: TableView) -> RandomizationError {
    if table.len() == 0 {
        RandomizationError::EmptyTable { group: group as usize }
    } else {
        RandomizationError::NoPositiveWeight { group: group as usize }
    }
}

/// The selection from group `k` on, for a generator holding `words` after
/// `selected` has been drawn for the groups before `k`.
pub open spec fn selection_from(
    groups: Seq<GroupView>,
    k: int,
    words: (u64, u64),
    selected: Seq<TraitView>,
) -> Result<Seq<TraitView>, RandomizationError>
    decreases groups.len() - k,
{
    if k < 0 || k >= groups.len() {
        Ok(selected)
    } else {
        let table = subtable(groups[k].entries, selected);
        if !has_positive(weights_of(table)) {
            Err(failure(k, table))
        } else {
            let drawn = weighted_draw(words, weights_of(table));
            selection_from(
                groups,
                k + 1,
                drawn.1,
                selected.push(drawn_trait(groups[k].name, table, drawn.0)),
            )
        }
    }
}

/// The traits selected from `catalog` for `seed`, or the first group that
/// nothing could be drawn for.
pub open spec fn selection(catalog: ConfigView, seed: u64) -> Result<
    Seq<TraitView>,
    RandomizationError,
> {
    selection_from(catalog.attributes, 0, seeded_words(seed), Seq::empty())
}

/// Whether `t` records the draw of an entry with a positive weight from the
/// table that `group` resolves to after `earlier`.
pub open spec fn drawn_from(t: TraitView, group: GroupView, earlier: Seq<TraitView>) -> bool {
    let table = subtable(group.entries, earlier);
    exists|i: int|
        0 <= i < table.len() && table[i].1 > 0 && t == #[trigger] drawn_trait(group.name, table, i)
}

/// Whether `traits` holds one trait for each group, each drawn from the table
/// that its group resolves to after the traits before it.
pub open spec fn well_drawn(groups: Seq<GroupView>, traits: Seq<TraitView>) -> bool {
    &&& traits.len() == groups.len()
    &&& forall|k: int|
        0 <= k < traits.len() ==> drawn_from(#[trigger] traits[k], groups[k], traits.take(k))
}

/// Whether `r` is what `select` returns for `config` and `seed`.
pub open spec fn is_selection(
    config: ConfigView,
    seed: u64,
    r: Result<Vec<Trait>, RandomizationError>,
) -> bool {
    match selection(config, seed) {
        Ok(traits) => r matches Ok(v) && traits_view(v@) == traits,
        Err(e) => r == Err::<Vec<Trait>, RandomizationError>(e),
    }
}

/// Inserts each entry of `extra` into `table`, in order.
pub fn merge_into(table: &mut IndexMap<String, u64>, extra: &IndexMap<String, u64>)
    ensures
        table_entries(*final(table)) == merged(table_entries(*old(table)), table_entries(*extra)),
{
    let n = table_len(extra);
    let ghost all = table_entries(*extra);
    let mut j: usize = 0;
    assert(all.take(0) =~= Seq::<(Seq<char>, u64)>::empty());
    while j < n
        invariant
            j <= n,
            n == all.len(),
            all == table_entries(*extra),
            table_entries(*table) == merged(table_entries(*old(table)), all.take(j as int)),
        decreases n - j,
    {
        let entry = table_entry(extra, j).unwrap();
        proof {
            let next = all.take(j + 1);
            assert(next.drop_last() =~= all.take(j as int));
            assert(next.last() == all[j as int]);
        }
        table_insert(table, entry.0, entry.1);
        j += 1;
    }
    assert(all.take(n as int) =~= all);
}

/// What `group` offers when no predicate holds.
pub fn fallback_table(group: &Group) -> (table: IndexMap<String, u64>)
    ensures
        table_entries(table) == fallback(group@.entries),
{
    let ghost entries = group@.entries;
    let n = group.entries.len();
    let mut table = new_table();
    let mut i: usize = 0;
    assert(entries.take(0) =~= Seq::<EntryView>::empty());
    while i < n
        invariant
            i <= n,
            n == group.entries.len(),
            entries == group@.entries,
            table_entries(table) == fallback(entries.take(i as int)),
        decreases n - i,
    {
        let entry = &group.entries[i];
        proof {
            let next = entries.take(i + 1);
            assert(next.drop_last() =~= entries.take(i as int));
            assert(next.last() == entry@);
            reveal_strlit("_");
            assert("_"@ =~= fallback_key());
        }
        match &entry.attribute {
            Attribute::Standard(weight) => {
                table_insert(&mut table, entry.key.clone(), *weight);
            },
            Attribute::Keyed(extra) => {
                if same_text(entry.key.as_str(), "_") {
                    merge_into(&mut table, extra);
                }
            },
        }
        i += 1;
    }
    assert(entries.take(n as int) =~= entries);
    table
}

/// The table `group` is drawn from, given the traits selected before it: that
/// of the first keyed entry whose predicate they satisfy, else the fallback.
pub fn resolve_subtable(group: &Group, selected: &Vec<Trait>) -> (table: IndexMap<String, u64>)
    ensures
        table_entries(table) == subtable(group@.entries, traits_view(selected@)),
{
    let ghost entries = group@.entries;
    let ghost views = traits_view(selected@);
    let n = group.entries.len();
    let mut i: usize = 0;
    while i < n
        invariant
            i <= n,
            n == group.entries.len(),
            entries == group@.entries,
            views == traits_view(selected@),
            first_open(entries, views, 0) == first_open(entries, views, i as int),
        decreases n - i,
    {
        let entry = &group.entries[i];
        assert(entries[i as int] == entry@);
        proof {
            reveal_strlit("_");
            assert("_"@ =~= fallback_key());
        }
        match &entry.attribute {
            Attribute::Keyed(table) => {
                if !same_text(entry.key.as_str(), "_") && predicate_satisfied(
                    entry.key.as_str(),
                    selected,
                ) {
                    assert(gate_open(entries[i as int], views));
                    return table_clone(table);
                }
            },
            Attribute::Standard(_) => {},
        }
        assert(!gate_open(entries[i as int], views));
        i += 1;
    }
    fallback_table(group)
}

/// The weights of `table`, in its order.
pub fn table_weights(table: &IndexMap<String, u64>) -> (weights: Vec<u64>)
    ensures
        weights@ == weights_of(table_entries(*table)),
{
    let n = table_len(table);
    let mut weights: Vec<u64> = Vec::new();
    let mut i: usize = 0;
    while i < n
        invariant
            i <= n,
            n == table_entries(*table).len(),
            weights@ == weights_of(table_entries(*table)).take(i as int),
        decreases n - i,
    {
        let entry = table_entry(table, i).unwrap();
        weights.push(entry.1);
        assert(weights@ =~= weights_of(table_entries(*table)).take(i + 1));
        i += 1;
    }
    assert(weights@ =~= weights_of(table_entries(*table)));
    weights
}

/// The trait to record when entry `index` of `table` has been drawn for
/// `group`; `None` if the table has no such entry.
pub fn record_draw(group: &Group, table: &IndexMap<String, u64>, index: usize) -> (r: Option<
    Trait,
>)
    ensures
        r is Some <==> index < table_entries(*table).len(),
        r matches Some(t) ==> t@ == drawn_trait(group@.name, table_entries(*table), index as int),
{
    match table_entry(table, index) {
        None => None,
        Some(entry) => {
            proof {
                reveal_strlit(".png");
                assert(".png"@ =~= layer_extension());
            }
            let value = strip_suffix(entry.0.as_str(), ".png");
            Some(Trait { trait_type: group.name.clone(), value, rarity: entry.1 })
        },
    }
}

/// Selects one trait for each group of `config`, in catalog order, drawing
/// from a generator seeded with `seed`.
///
/// Fails at the first group whose table is empty or holds no positive weight;
/// nothing is returned of the groups before it.
pub fn select(config: &Config, seed: u64) -> (r: Result<Vec<Trait>, RandomizationError>)
    ensures
        is_selection(config@, seed, r),
        r matches Ok(v) ==> well_drawn(config@.attributes, traits_view(v@)),
{
    let ghost groups = config@.attributes;
    let n = config.attributes.len();
    let mut generator = seeded_generator(seed);
    let mut selected: Vec<Trait> = Vec::new();
    let mut k: usize = 0;
    assert(traits_view(selected@) =~= Seq::<TraitView>::empty());
    while k < n
        invariant
            k <= n,
            n == config.attributes.len(),
            groups == config@.attributes,
            selection(config@, seed) == selection_from(
                groups,
                k as int,
                generator_words(generator),
                traits_view(selected@),
            ),
            selected.len() == k,
            forall|j: int|
                0 <= j < k ==> drawn_from(
                    #[trigger] traits_view(selected@)[j],
                    groups[j],
                    traits_view(selected@).take(j),
                ),
        decreases n - k,
    {
        let group = &config.attributes[k];
        assert(groups[k as int] == group@);
        let table = resolve_subtable(group, &selected);
        let weights = table_weights(&table);
        match draw_index(&mut generator, &weights) {
            None => {
                let e = if table_len(&table) == 0 {
                    RandomizationError::EmptyTable { group: k }
                } else {
                    RandomizationError::NoPositiveWeight { group: k }
                };
                return Err(e);
            },
            Some(index) => {
                let ghost before = traits_view(selected@);
                let t = record_draw(group, &table, index).unwrap();
                selected.push(t);
                let ghost after = traits_view(selected@);
                assert(after =~= before.push(t@));
                assert(weights@[index as int] == table_entries(table)[index as int].1);
                assert forall|j: int| 0 <= j <= k implies drawn_from(
                    #[trigger] after[j],
                    groups[j],
                    after.take(j),
                ) by {
                    assert(after.take(j) =~= before.take(j));
                    if j == k {
                        assert(before.take(j) =~= before);
                        assert(after[j] == drawn_trait(
                            groups[j].name,
                            subtable(groups[j].entries, before),
                            index as int,
                        ));
                    } else {
                        assert(after[j] == before[j]);
                    }
                }
            },
        }
        k += 1;
    }
    Ok(selected)
}

/// Determinism: whatever `select` returns for one catalog and one seed, it
/// returns the same traits, or the same error, every time.
pub proof fn lemma_select_deterministic(
    config: ConfigView,
    seed: u64,
    first: Result<Vec<Trait>, RandomizationError>,
    second: Result<Vec<Trait>, RandomizationError>,
)
    requires
        is_selection(config, seed, first),
        is_selection(config, seed, second),
    ensures
        first matches Ok(a) ==> second matches Ok(b) && traits_view(a@) == traits_view(b@),
        first matches Err(e) ==> second == Err::<Vec<Trait>, RandomizationError>(e),
{
}

/// Fail-fast: a group that resolves to a table without a positive weight ends
/// the selection with the error for that group.
pub proof fn lemma_barren_table_fails(
    groups: Seq<GroupView>,
    k: int,
    words: (u64, u64),
    selected: Seq<TraitView>,
)
    requires
        0 <= k < groups.len(),
        !has_positive(weights_of(subtable(groups[k].entries, selected))),
    ensures
        selection_from(groups, k, words, selected) == Err::<Seq<TraitView>, RandomizationError>(
            failure(k, subtable(groups[k].entries, selected)),
        ),
{
}

/// Fail-fast: a catalog with a group that never resolves to a table with a
/// positive weight has no selection, whatever the seed and whatever is drawn
/// for the groups before it.
pub proof fn lemma_barren_group_fails(
    groups: Seq<GroupView>,
    barren: int,
    k: int,
    words: (u64, u64),
    selected: Seq<TraitView>,
)
    requires
        0 <= k <= barren < groups.len(),
        forall|earlier: Seq<TraitView>|
            !has_positive(weights_of(#[trigger] subtable(groups[barren].entries, earlier))),
    ensures
        selection_from(groups, k, words, selected) is Err,
    decreases barren - k,
{
    let table = subtable(groups[k].entries, selected);
    if has_positive(weights_of(table)) {
        let drawn = weighted_draw(words, weights_of(table));
        lemma_barren_group_fails(
            groups,
            barren,
            k + 1,
            drawn.1,
            selected.push(drawn_trait(groups[k].name, table, drawn.0)),
        );
    }
}

/// First match: the first keyed entry whose predicate holds supplies the
/// table, whatever follows it.
pub proof fn lemma_first_open_gate_wins(
    entries: Seq<EntryView>,
    selected: Seq<TraitView>,
    i: int,
)
    requires
        0 <= i < entries.len(),
        gate_open(entries[i], selected),
        forall|j: int| 0 <= j < i ==> !gate_open(#[trigger] entries[j], selected),
    ensures
        subtable(entries, selected) == entries[i].attribute->Keyed_0,
{
    lemma_first_open_skips(entries, selected, 0, i);
}

/// `first_open` passes over closed gates.
proof fn lemma_first_open_skips(
    entries: Seq<EntryView>,
    selected: Seq<TraitView>,
    from: int,
    i: int,
)
    requires
        0 <= from <= i < entries.len(),
        gate_open(entries[i], selected),
        forall|j: int| from <= j < i ==> !gate_open(#[trigger] entries[j], selected),
    ensures
        first_open(entries, selected, from) == i,
    decreases i - from,
{
    if from < i {
        lemma_first_open_skips(entries, selected, from + 1, i);
    }
}

/// A key `group:value`, where neither part holds a `|` and the group holds no
/// `:`, is a predicate that holds once `value` has been selected for `group`.
pub proof fn lemma_pair_predicate_holds(
    group: Seq<char>,
    value: Seq<char>,
    selected: Seq<TraitView>,
    at: int,
)
    requires
        !group.contains(':'),
        !group.contains('|'),
        !value.contains('|'),
        0 <= at < selected.len(),
        selected[at].trait_type == group,
        selected[at].value == value,
    ensures
        predicate_holds(group + seq![':'] + value, selected),
        group + seq![':'] + value != fallback_key(),
{
    let key = group + seq![':'] + value;
    let n = group.len() as int;
    assert(key[n] == ':');
    assert forall|j: int| 0 <= j < key.len() implies key[j] != '|' by {
        if j < n {
            assert(group.contains(key[j]));
        } else if j > n {
            assert(key[j] == value[j - n - 1]);
            assert(value.contains(key[j]));
        }
    }
    assert forall|j: int| 0 <= j < n implies key[j] != ':' by {
        assert(group.contains(key[j]));
    }
    lemma_index_of_is(key, '|', key.len() as int);
    lemma_index_of_is(key, ':', n);
    assert(key.take(n) =~= group);
    assert(key.skip(n + 1) =~= value);
    assert(clause_holds(key, selected));
    assert(split(key, '|') =~= seq![key]);
}

/// Predicate precedence: once `value` has been selected for `group`, a keyed
/// entry under the key `group:value` that no open gate precedes supplies the
/// table of its own group.
pub proof fn lemma_predicate_precedence(
    entries: Seq<EntryView>,
    selected: Seq<TraitView>,
    i: int,
    group: Seq<char>,
    value: Seq<char>,
    at: int,
)
    requires
        0 <= i < entries.len(),
        entries[i].attribute is Keyed,
        entries[i].key == group + seq![':'] + value,
        !group.contains(':'),
        !group.contains('|'),
        !value.contains('|'),
        0 <= at < selected.len(),
        selected[at].trait_type == group,
        selected[at].value == value,
        forall|j: int| 0 <= j < i ==> !gate_open(#[trigger] entries[j], selected),
    ensures
        subtable(entries, selected) == entries[i].attribute->Keyed_0,
{
    lemma_pair_predicate_holds(group, value, selected, at);
    lemma_first_open_gate_wins(entries, selected, i);
}

/// Predicate precedence, from end to end: in a selection, once a value has
/// been drawn for a group, a later group with a keyed entry under the key
/// `group:value` that no open gate precedes has its trait drawn from the
/// table of that entry, and from an entry of it with a positive weight.
pub proof fn lemma_gated_trait_comes_from_its_table(
    groups: Seq<GroupView>,
    traits: Seq<TraitView>,
    earlier: int,
    later: int,
    i: int,
)
    requires
        well_drawn(groups, traits),
        0 <= earlier < later < groups.len(),
        0 <= i < groups[later].entries.len(),
        groups[later].entries[i].attribute is Keyed,
        groups[later].entries[i].key == traits[earlier].trait_type + seq![':']
            + traits[earlier].value,
        !traits[earlier].trait_type.contains(':'),
        !traits[earlier].trait_type.contains('|'),
        !traits[earlier].value.contains('|'),
        forall|j: int|
            0 <= j < i ==> !gate_open(#[trigger] groups[later].entries[j], traits.take(later)),
    ensures
        ({
            let table = groups[later].entries[i].attribute->Keyed_0;
            exists|at: int|
                0 <= at < table.len() && table[at].1 > 0 && traits[later] == #[trigger] drawn_trait(
                    groups[later].name,
                    table,
                    at,
                )
        }),
{
    let before = traits.take(later);
    assert(before[earlier] == traits[earlier]);
    lemma_predicate_precedence(
        groups[later].entries,
        before,
        i,
        traits[earlier].trait_type,
        traits[earlier].value,
        earlier,
    );
    assert(drawn_from(traits[later], groups[later], before));
}

/// A selection holds one trait for each group of the catalog, in catalog
/// order and under the group's name, and each with a positive weight.
pub proof fn lemma_selection_covers_catalog(groups: Seq<GroupView>, traits: Seq<TraitView>)
    requires
        well_drawn(groups, traits),
    ensures
        traits.len() == groups.len(),
        forall|k: int|
            0 <= k < traits.len() ==> (#[trigger] traits[k]).trait_type == groups[k].name
                && traits[k].rarity > 0,
{
    assert forall|k: int| 0 <= k < traits.len() implies (#[trigger] traits[k]).trait_type
        == groups[k].name && traits[k].rarity > 0 by {
        assert(drawn_from(traits[k], groups[k], traits.take(k)));
    }
}

} // verus!
