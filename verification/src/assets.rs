//! The asset index of a version: which asset object is stored under which
//! name.

use crate::types::{Asset, AssetView};
use vstd::prelude::*;

verus! {

/// One line of the index.
#[derive(Debug, Clone)]
struct AssetEntry {
    name: String,
    asset: Asset,
}

/// The mapping from asset name to asset object. No name occurs twice. The
/// entries keep the order in which their names were first inserted.
#[derive(Debug, Clone)]
pub struct VersionAssets {
    entries: Vec<AssetEntry>,
}

/// The mapping that a list of entries stands for; of two entries with the
/// same name the later one counts.
spec fn entries_map(entries: Seq<AssetEntry>) -> Map<Seq<char>, AssetView>
    decreases entries.len(),
{
    if entries.len() == 0 {
        Map::empty()
    } else {
        entries_map(entries.drop_last()).insert(entries.last().name@, entries.last().asset@)
    }
}

spec fn distinct_names(entries: Seq<AssetEntry>) -> bool {
    forall|i: int, j: int|
        0 <= i < j < entries.len() ==> (#[trigger] entries[i]).name@ != (
        #[trigger] entries[j]).name@
}

proof fn lemma_entries_map(entries: Seq<AssetEntry>)
    ensures
        entries_map(entries).dom().finite(),
        forall|name: Seq<char>|
            entries_map(entries).contains_key(name) <==> exists|i: int|
                0 <= i < entries.len() && (#[trigger] entries[i]).name@ == name,
        distinct_names(entries) ==> entries_map(entries).dom().len() == entries.len(),
        distinct_names(entries) ==> forall|i: int|
            0 <= i < entries.len() ==> entries_map(entries)[(#[trigger] entries[i]).name@]
                == entries[i].asset@,
    decreases entries.len(),
{
    if entries.len() > 0 {
        let front = entries.drop_last();
        lemma_entries_map(front);
        assert forall|name: Seq<char>|
            entries_map(entries).contains_key(name) <==> exists|i: int|
                0 <= i < entries.len() && (#[trigger] entries[i]).name@ == name by {
            if exists|i: int| 0 <= i < entries.len() && (#[trigger] entries[i]).name@ == name {
                let i = choose|i: int| 0 <= i < entries.len() && (#[trigger] entries[i]).name@ == name;
                if i < front.len() {
                    assert(front[i].name@ == name);
                }
            }
        }
        if distinct_names(entries) {
            assert forall|i: int| 0 <= i < entries.len() implies entries_map(entries)[(
            #[trigger] entries[i]).name@] == entries[i].asset@ by {
                if i < front.len() {
                    assert(front[i].name@ == entries[i].name@);
                }
            }
        }
    }
}

impl View for VersionAssets {
    type V = Map<Seq<char>, AssetView>;

    closed spec fn view(&self) -> Map<Seq<char>, AssetView> {
        entries_map(self.entries@)
    }
}

impl VersionAssets {
    /// The invariant of the index: no name occurs twice.
    pub closed spec fn wf(&self) -> bool {
        distinct_names(self.entries@)
    }

    /// The entries of the index in the order their names were first
    /// inserted.
    pub closed spec fn listing(&self) -> Seq<(Seq<char>, AssetView)> {
        Seq::new(self.entries@.len(), |i: int| (self.entries@[i].name@, self.entries@[i].asset@))
    }

    /// The listing and the mapping say the same: the listing names every
    /// asset of the mapping once, with the object the mapping has for it.
    pub proof fn lemma_listing(&self)
        requires
            self.wf(),
        ensures
            self@.dom().finite(),
            self.listing().len() == self@.dom().len(),
            forall|i: int|
                0 <= i < self.listing().len() ==> self@.contains_key(
                    (#[trigger] self.listing()[i]).0,
                ) && self@[self.listing()[i].0] == self.listing()[i].1,
            forall|i: int, j: int|
                0 <= i < j < self.listing().len() ==> (#[trigger] self.listing()[i]).0 != (
                #[trigger] self.listing()[j]).0,
            forall|name: Seq<char>|
                self@.contains_key(name) ==> exists|i: int|
                    0 <= i < self.listing().len() && (#[trigger] self.listing()[i]).0 == name,
    {
        lemma_entries_map(self.entries@);
        assert forall|name: Seq<char>| self@.contains_key(name) implies exists|i: int|
            0 <= i < self.listing().len() && (#[trigger] self.listing()[i]).0 == name by {
            let i = choose|i: int|
                0 <= i < self.entries@.len() && (#[trigger] self.entries@[i]).name@ == name;
            assert(self.listing()[i].0 == name);
        }
    }

    /// An index without entries.
    pub fn new() -> (assets: VersionAssets)
        ensures
            assets.wf(),
            assets@ == Map::<Seq<char>, AssetView>::empty(),
            assets.listing() == Seq::<(Seq<char>, AssetView)>::empty(),
    {
        let assets = VersionAssets { entries: Vec::new() };
        assets
    }

    fn position(&self, name: &String) -> (found: Option<usize>)
        ensures
            match found {
                Some(at) => at < self.entries@.len() && self.entries@[at as int].name@ == name@,
                None => forall|i: int|
                    0 <= i < self.entries@.len() ==> (#[trigger] self.entries@[i]).name@ != name@,
            },
    {
        let mut at: usize = 0;
        while at < self.entries.len()
            invariant
                at <= self.entries@.len(),
                forall|i: int| 0 <= i < at ==> (#[trigger] self.entries@[i]).name@ != name@,
            decreases self.entries@.len() - at,
        {
            if self.entries[at].name == *name {
                return Some(at);
            }
            at += 1;
        }
        None
    }

    /// Stores `asset` under `name`. An object stored under that name before
    /// is replaced and keeps its place in the listing; a new name goes to
    /// the end of the listing.
    pub fn insert(&mut self, name: String, asset: Asset)
        requires
            old(self).wf(),
        ensures
            final(self).wf(),
            final(self)@ == old(self)@.insert(name@, asset@),
            !old(self)@.contains_key(name@) ==> final(self).listing() == old(self).listing().push(
                (name@, asset@),
            ),
            old(self)@.contains_key(name@) ==> exists|at: int|
                0 <= at < old(self).listing().len() && old(self).listing()[at].0 == name@
                    && final(self).listing() == old(self).listing().update(at, (name@, asset@)),
    {
        let ghost before = self.entries@;
        let ghost name_view = name@;
        let ghost asset_view = asset@;
        proof {
            lemma_entries_map(before);
        }
        match self.position(&name) {
            Some(at) => {
                self.entries.set(at, AssetEntry { name, asset });
                let ghost after = self.entries@;
                proof {
                    assert(distinct_names(after)) by {
                        assert forall|i: int, j: int| 0 <= i < j < after.len() implies (
                        #[trigger] after[i]).name@ != (#[trigger] after[j]).name@ by {
                            assert(after[i].name@ == before[i].name@);
                            assert(after[j].name@ == before[j].name@);
                        }
                    }
                    lemma_entries_map(after);
                    assert forall|key: Seq<char>|
                        entries_map(after).contains_key(key) <==> entries_map(before).insert(
                            name_view,
                            asset_view,
                        ).contains_key(key) by {
                        if entries_map(after).contains_key(key) {
                            let i = choose|i: int|
                                0 <= i < after.len() && (#[trigger] after[i]).name@ == key;
                            assert(before[i].name@ == key);
                        }
                        if entries_map(before).contains_key(key) {
                            let i = choose|i: int|
                                0 <= i < before.len() && (#[trigger] before[i]).name@ == key;
                            assert(after[i].name@ == key);
                        }
                    }
                    assert forall|key: Seq<char>|
                        entries_map(after).contains_key(key) implies entries_map(after)[key]
                        == entries_map(before).insert(name_view, asset_view)[key] by {
                        let i = choose|i: int|
                            0 <= i < after.len() && (#[trigger] after[i]).name@ == key;
                        assert(before[i].name@ == key);
                    }
                    assert(entries_map(after) =~= entries_map(before).insert(
                        name_view,
                        asset_view,
                    ));
                    assert(self.listing() =~= old(self).listing().update(
                        at as int,
                        (name_view, asset_view),
                    ));
                }
            },
            None => {
                self.entries.push(AssetEntry { name, asset });
                let ghost after = self.entries@;
                proof {
                    assert(after.drop_last() == before);
                    assert(distinct_names(after)) by {
                        assert forall|i: int, j: int| 0 <= i < j < after.len() implies (
                        #[trigger] after[i]).name@ != (#[trigger] after[j]).name@ by {
                            assert(after[i] == before[i]);
                        }
                    }
                    assert(self.listing() =~= old(self).listing().push((name_view, asset_view)));
                }
            },
        }
    }

    /// All assets with their names, in the order of the listing.
    pub fn as_vec(&self) -> (pairs: Vec<(&String, &Asset)>)
        requires
            self.wf(),
        ensures
            pairs@.len() == self.listing().len(),
            forall|i: int|
                0 <= i < pairs@.len() ==> ((#[trigger] pairs@[i]).0@, pairs@[i].1@)
                    == self.listing()[i],
    {
        let mut pairs: Vec<(&String, &Asset)> = Vec::new();
        let mut i: usize = 0;
        while i < self.entries.len()
            invariant
                i <= self.entries@.len(),
                pairs@.len() == i,
                forall|j: int|
                    0 <= j < i ==> ((#[trigger] pairs@[j]).0@, pairs@[j].1@) == self.listing()[j],
            decreases self.entries@.len() - i,
        {
            let entry = &self.entries[i];
            pairs.push((&entry.name, &entry.asset));
            i += 1;
        }
        pairs
    }

    /// The asset stored under the name `path`, if there is one.
    pub fn get_asset(&self, path: &str) -> (asset: Option<&Asset>)
        requires
            self.wf(),
        ensures
            match asset {
                Some(found) => self@.contains_key(path@) && found@ == self@[path@],
                None => !self@.contains_key(path@),
            },
    {
        proof {
            lemma_entries_map(self.entries@);
        }
        let name = String::from_str(path);
        match self.position(&name) {
            Some(at) => Some(&self.entries[at].asset),
            None => None,
        }
    }

    /// How many assets the index has.
    pub fn len(&self) -> (count: usize)
        requires
            self.wf(),
        ensures
            count == self@.dom().len(),
            count == self.listing().len(),
    {
        proof {
            lemma_entries_map(self.entries@);
        }
        self.entries.len()
    }

    /// Whether the index has no asset.
    pub fn is_empty(&self) -> (empty: bool)
        requires
            self.wf(),
        ensures
            empty == (self@.dom().len() == 0),
            empty == (self@ == Map::<Seq<char>, AssetView>::empty()),
    {
        proof {
            lemma_entries_map(self.entries@);
            if self.entries@.len() > 0 {
                assert(self@.contains_key(self.entries@[0].name@));
            }
        }
        self.entries.len() == 0
    }
}

} // verus!
