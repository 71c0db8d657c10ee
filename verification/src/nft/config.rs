//! The trait catalog: the groups a selection walks through, and what each
//! group offers.

use crate::nft::table::table_entries;
use crate::text::{first_repeat, first_repeated, lemma_distinct_has_no_repeat, distinct, texts_view};
use indexmap::IndexMap;
use vstd::prelude::*;

verus! {

/// The weight that stands for 1.0 in a catalog document. Weights are whole
/// numbers of millionths, so that sums and products of them are exact.
pub const WEIGHT_UNIT: u64 = 1_000_000;

/// The key of a keyed entry that is no predicate: its table belongs to what a
/// group offers when no predicate holds.
pub open spec fn fallback_key() -> Seq<char> {
    seq!['_']
}

/// What stands under one key of a group: a single weight for the key itself,
/// or a table of values with their weights that the key gates.
#[derive(Debug, PartialEq, Eq)]
pub enum Attribute {
    Keyed(IndexMap<String, u64>),
    Standard(u64),
}

pub enum AttributeView {
    Keyed(Seq<(Seq<char>, u64)>),
    Standard(u64),
}

impl View for Attribute {
    type V = AttributeView;

    open spec fn view(&self) -> AttributeView {
        match *self {
            Attribute::Keyed(table) => AttributeView::Keyed(table_entries(table)),
            Attribute::Standard(weight) => AttributeView::Standard(weight),
        }
    }
}

/// One key of a group with what stands under it.
#[derive(Debug, PartialEq, Eq)]
pub struct Entry {
    pub key: String,
    pub attribute: Attribute,
}

pub struct EntryView {
    pub key: Seq<char>,
    pub attribute: AttributeView,
}

impl View for Entry {
    type V = EntryView;

    open spec fn view(&self) -> EntryView {
        EntryView { key: self.key@, attribute: self.attribute@ }
    }
}

/// A trait group: its name and its entries, in the order the catalog lists
/// them.
#[derive(Debug, PartialEq, Eq)]
pub struct Group {
    pub name: String,
    pub entries: Vec<Entry>,
}

pub struct GroupView {
    pub name: Seq<char>,
    pub entries: Seq<EntryView>,
}

impl View for Group {
    type V = GroupView;

    open spec fn view(&self) -> GroupView {
        GroupView { name: self.name@, entries: self.entries@.map_values(|e: Entry| e@) }
    }
}

/// The catalog of a series: how its artifacts are named and described, and
/// the trait groups in the order they are drawn.
#[derive(Debug, PartialEq, Eq)]
pub struct Config {
    pub name: String,
    pub identity: String,
    pub description: String,
    pub attributes: Vec<Group>,
}

pub struct ConfigView {
    pub name: Seq<char>,
    pub identity: Seq<char>,
    pub description: Seq<char>,
    pub attributes: Seq<GroupView>,
}

impl View for Config {
    type V = ConfigView;

    open spec fn view(&self) -> ConfigView {
        ConfigView {
            name: self.name@,
            identity: self.identity@,
            description: self.description@,
            attributes: self.attributes@.map_values(|g: Group| g@),
        }
    }
}

/// Why a catalog, or a catalog and the assets kept for it, cannot be used.
#[derive(Debug, Clone, Copy, PartialEq, Eq, Structural)]
pub enum ConfigError {
    /// The group at this position has the name of an earlier one.
    DuplicateGroup { group: usize },
    /// In the group at `group`, the entry at `entry` has the key of an earlier
    /// one.
    DuplicateKey { group: usize, entry: usize },
    /// The layer of the trait at this position, of a mandatory group, is
    /// missing.
    MissingLayer { index: usize },
}

/// The names of the groups, in catalog order.
pub open spec fn group_names(groups: Seq<GroupView>) -> Seq<Seq<char>> {
    groups.map_values(|g: GroupView| g.name)
}

/// The keys of the entries, in catalog order.
pub open spec fn entry_keys(entries: Seq<EntryView>) -> Seq<Seq<char>> {
    entries.map_values(|e: EntryView| e.key)
}

/// Whether a catalog is a mapping from group names to entries, and each of
/// its groups one from keys to what stands under them: no group name and,
/// within a group, no key occurs twice.
pub open spec fn well_formed(config: ConfigView) -> bool {
    &&& distinct(group_names(config.attributes))
    &&& forall|g: int|
        0 <= g < config.attributes.len() ==> distinct(
            entry_keys(#[trigger] config.attributes[g].entries),
        )
}

/// The first group from `from` on in which a key occurs twice, with the first
/// entry that repeats a key.
pub open spec fn key_fault(groups: Seq<GroupView>, from: int) -> Option<ConfigError>
    decreases groups.len() - from,
{
    if from < 0 || from >= groups.len() {
        None
    } else {
        let keys = entry_keys(groups[from].entries);
        let e = first_repeat(keys, 0);
        if e < keys.len() {
            Some(ConfigError::DuplicateKey { group: from as usize, entry: e as usize })
        } else {
            key_fault(groups, from + 1)
        }
    }
}

/// What is wrong with a catalog, if anything: the first group that repeats a
/// name, or else the first key that is repeated within its group.
pub open spec fn catalog_fault(config: ConfigView) -> Option<ConfigError> {
    let names = group_names(config.attributes);
    let g = first_repeat(names, 0);
    if g < names.len() {
        Some(ConfigError::DuplicateGroup { group: g as usize })
    } else {
        key_fault(config.attributes, 0)
    }
}

/// A catalog has no fault exactly when it is well formed.
pub proof fn lemma_fault_free_is_well_formed(config: ConfigView)
    ensures
        catalog_fault(config) is None <==> well_formed(config),
{
    let names = group_names(config.attributes);
    assert(names.take(0) =~= Seq::<Seq<char>>::empty());
    lemma_distinct_has_no_repeat(names, 0);
    lemma_key_fault(config.attributes, 0);
}

/// No group from `from` on has a key fault exactly when the keys of each are
/// distinct.
proof fn lemma_key_fault(groups: Seq<GroupView>, from: int)
    requires
        0 <= from <= groups.len(),
    ensures
        key_fault(groups, from) is None <==> (forall|g: int|
            from <= g < groups.len() ==> distinct(entry_keys(#[trigger] groups[g].entries))),
    decreases groups.len() - from,
{
    if from < groups.len() {
        let keys = entry_keys(groups[from].entries);
        assert(keys.take(0) =~= Seq::<Seq<char>>::empty());
        lemma_distinct_has_no_repeat(keys, 0);
        lemma_key_fault(groups, from + 1);
        if key_fault(groups, from) is None {
            assert forall|g: int| from <= g < groups.len() implies distinct(
                entry_keys(#[trigger] groups[g].entries),
            ) by {}
        }
    }
}

/// Checks that no group name and, within a group, no key occurs twice.
#[verifier::loop_isolation(false)]
pub fn check_catalog(config: &Config) -> (r: Result<(), ConfigError>)
    ensures
        r == match catalog_fault(config@) {
            Some(e) => Err::<(), ConfigError>(e),
            None => Ok::<(), ConfigError>(()),
        },
        r is Ok <==> well_formed(config@),
{
    proof {
        lemma_fault_free_is_well_formed(config@);
    }
    let ghost groups = config@.attributes;
    let mut names: Vec<String> = Vec::new();
    let mut g: usize = 0;
    while g < config.attributes.len()
        invariant
            g <= config.attributes.len(),
            groups == config@.attributes,
            texts_view(names@) == group_names(groups).take(g as int),
        decreases config.attributes.len() - g,
    {
        let ghost before = texts_view(names@);
        names.push(config.attributes[g].name.clone());
        assert(groups[g as int] == config.attributes[g as int]@);
        assert(texts_view(names@) =~= before.push(groups[g as int].name));
        assert(group_names(groups).take(g + 1) =~= before.push(groups[g as int].name));
        g += 1;
    }
    assert(group_names(groups).take(g as int) =~= group_names(groups));
    let repeated = first_repeated(&names);
    if repeated < names.len() {
        return Err(ConfigError::DuplicateGroup { group: repeated });
    }
    g = 0;
    while g < config.attributes.len()
        invariant
            g <= config.attributes.len(),
            groups == config@.attributes,
            key_fault(groups, 0) == key_fault(groups, g as int),
        decreases config.attributes.len() - g,
    {
        let group = &config.attributes[g];
        assert(groups[g as int] == group@);
        let ghost entries = group@.entries;
        let mut keys: Vec<String> = Vec::new();
        let mut e: usize = 0;
        while e < group.entries.len()
            invariant
                e <= group.entries.len(),
                entries == group@.entries,
                texts_view(keys@) == entry_keys(entries).take(e as int),
            decreases group.entries.len() - e,
        {
            let ghost before = texts_view(keys@);
            keys.push(group.entries[e].key.clone());
            assert(entries[e as int] == group.entries[e as int]@);
            assert(texts_view(keys@) =~= before.push(entries[e as int].key));
            assert(entry_keys(entries).take(e + 1) =~= before.push(entries[e as int].key));
            e += 1;
        }
        assert(entry_keys(entries).take(e as int) =~= entry_keys(entries));
        let repeated = first_repeated(&keys);
        if repeated < keys.len() {
            return Err(ConfigError::DuplicateKey { group: g, entry: repeated });
        }
        g += 1;
    }
    Ok(())
}

/// A collection an artifact belongs to.
#[derive(Debug, Clone, PartialEq, Eq)]
pub struct Collection {
    pub name: String,
    pub family: String,
}

/// A creator of a collection and the share of proceeds they receive.
#[derive(Debug, Clone, PartialEq, Eq)]
pub struct Creator {
    pub address: String,
    pub share: u8,
}

} // verus!
