//! The index from canonical locations to the assets that hold them.

use crate::error::Error;
use crate::location::{canonical_view, MultiLocation};
use crate::metadata::AssetId;
use vstd::prelude::*;

verus! {

/// Maps each indexed location to one asset id. No location is indexed twice.
pub struct LocationIndex {
    entries: Vec<(MultiLocation, AssetId)>,
}

/// Whether the entry at `i` is the one for `location`.
spec fn entry_is(entries: Seq<(MultiLocation, AssetId)>, location: Seq<u8>, i: int) -> bool {
    0 <= i < entries.len() && entries[i].0@ == location
}

/// The map that a list of entries with distinct locations stands for.
spec fn entries_map(entries: Seq<(MultiLocation, AssetId)>) -> Map<Seq<u8>, AssetId> {
    Map::new(
        |location: Seq<u8>| exists|i: int| entry_is(entries, location, i),
        |location: Seq<u8>| entries[choose|i: int| entry_is(entries, location, i)].1,
    )
}

spec fn distinct(entries: Seq<(MultiLocation, AssetId)>) -> bool {
    forall|i: int, j: int|
        0 <= i < entries.len() && 0 <= j < entries.len() && i != j ==> entries[i].0@
            != entries[j].0@
}

proof fn lemma_entry(entries: Seq<(MultiLocation, AssetId)>, i: int)
    requires
        distinct(entries),
        0 <= i < entries.len(),
    ensures
        entries_map(entries).contains_key(entries[i].0@),
        entries_map(entries)[entries[i].0@] == entries[i].1,
{
    assert(entry_is(entries, entries[i].0@, i));
}

proof fn lemma_push(entries: Seq<(MultiLocation, AssetId)>, entry: (MultiLocation, AssetId))
    requires
        distinct(entries),
        !entries_map(entries).contains_key(entry.0@),
    ensures
        distinct(entries.push(entry)),
        entries_map(entries.push(entry)) == entries_map(entries).insert(entry.0@, entry.1),
{
    let pushed = entries.push(entry);
    assert forall|i: int, j: int|
        0 <= i < pushed.len() && 0 <= j < pushed.len() && i != j implies pushed[i].0@
        != pushed[j].0@ by {
        if i < entries.len() && j < entries.len() {
        } else if i < entries.len() {
            assert(entry_is(entries, entries[i].0@, i));
        } else {
            assert(entry_is(entries, entries[j].0@, j));
        }
    }
    let before = entries_map(entries);
    let after = entries_map(pushed);
    assert forall|location: Seq<u8>| #[trigger]
        after.contains_key(location) == before.insert(entry.0@, entry.1).contains_key(
            location,
        ) by {
        if before.contains_key(location) {
            let i = choose|i: int| entry_is(entries, location, i);
            assert(entry_is(pushed, location, i));
        }
        if location == entry.0@ {
            assert(entry_is(pushed, location, entries.len() as int));
        }
        if after.contains_key(location) && location != entry.0@ {
            let i = choose|i: int| entry_is(pushed, location, i);
            assert(entry_is(entries, location, i));
        }
    }
    assert forall|location: Seq<u8>| after.contains_key(location) implies #[trigger] after[location]
        == before.insert(entry.0@, entry.1)[location] by {
        let i = choose|i: int| entry_is(pushed, location, i);
        if location == entry.0@ {
            assert(pushed[entries.len() as int].0@ == location);
            assert(i == entries.len());
        } else {
            assert(entry_is(entries, location, i));
            lemma_entry(entries, i);
        }
    }
    assert(after =~= before.insert(entry.0@, entry.1));
}

proof fn lemma_remove(entries: Seq<(MultiLocation, AssetId)>, at: int)
    requires
        distinct(entries),
        0 <= at < entries.len(),
    ensures
        distinct(entries.remove(at)),
        entries_map(entries.remove(at)) == entries_map(entries).remove(entries[at].0@),
{
    let removed = entries.remove(at);
    let gone = entries[at].0@;
    assert forall|i: int| 0 <= i < removed.len() implies #[trigger] removed[i] == entries[if i
        < at {
        i
    } else {
        i + 1
    }] by {}
    let before = entries_map(entries);
    let after = entries_map(removed);
    assert forall|location: Seq<u8>| #[trigger]
        after.contains_key(location) == before.remove(gone).contains_key(location) by {
        if after.contains_key(location) {
            let i = choose|i: int| entry_is(removed, location, i);
            let k = if i < at {
                i
            } else {
                i + 1
            };
            assert(entry_is(entries, location, k));
        }
        if before.contains_key(location) && location != gone {
            let k = choose|k: int| entry_is(entries, location, k);
            let i = if k < at {
                k
            } else {
                k - 1
            };
            assert(entry_is(removed, location, i));
        }
    }
    assert forall|location: Seq<u8>| after.contains_key(location) implies #[trigger] after[location]
        == before.remove(gone)[location] by {
        let i = choose|i: int| entry_is(removed, location, i);
        let k = if i < at {
            i
        } else {
            i + 1
        };
        lemma_entry(removed, i);
        lemma_entry(entries, k);
    }
    assert(after =~= before.remove(gone));
}

/// The index after an asset gave up the location `released`, if it names
/// one, and took the location `claimed`, if it names one: the error where
/// another asset holds the claimed location once the released one is free.
pub open spec fn moved(
    index: Map<Seq<u8>, AssetId>,
    asset_id: AssetId,
    released: Option<Seq<u8>>,
    claimed: Option<Seq<u8>>,
) -> Result<Map<Seq<u8>, AssetId>, Error> {
    let freed = match released {
        Some(location) => index.remove(location),
        None => index,
    };
    match claimed {
        None => Ok(freed),
        Some(location) => if freed.contains_key(location) && freed[location] != asset_id {
            Err(Error::ConflictingLocation)
        } else {
            Ok(freed.insert(location, asset_id))
        },
    }
}

impl View for LocationIndex {
    type V = Map<Seq<u8>, AssetId>;

    closed spec fn view(&self) -> Map<Seq<u8>, AssetId> {
        entries_map(self.entries@)
    }
}

impl LocationIndex {
    #[verifier::type_invariant]
    spec fn well_formed(&self) -> bool {
        distinct(self.entries@)
    }

    /// An index that holds no location.
    pub fn new() -> (index: Self)
        ensures
            index@ == Map::<Seq<u8>, AssetId>::empty(),
    {
        let index = LocationIndex { entries: Vec::new() };
        assert(index@ =~= Map::<Seq<u8>, AssetId>::empty());
        index
    }

    /// Where the entry for `location` stands, if there is one.
    fn position(&self, location: &MultiLocation) -> (found: Option<usize>)
        ensures
            match found {
                Some(i) => entry_is(self.entries@, location@, i as int),
                None => !self@.contains_key(location@),
            },
    {
        let mut i: usize = 0;
        while i < self.entries.len()
            invariant
                i <= self.entries.len(),
                forall|j: int| 0 <= j < i ==> !entry_is(self.entries@, location@, j),
            decreases self.entries.len() - i,
        {
            if self.entries[i].0.same(location) {
                return Some(i);
            }
            i = i + 1;
        }
        None
    }

    /// The asset that holds `location`, if any does.
    pub fn lookup(&self, location: &MultiLocation) -> (holder: Option<AssetId>)
        ensures
            holder == if self@.contains_key(location@) {
                Some(self@[location@])
            } else {
                None
            },
    {
        proof {
            use_type_invariant(self);
        }
        match self.position(location) {
            Some(i) => {
                proof {
                    lemma_entry(self.entries@, i as int);
                }
                Some(self.entries[i].1)
            },
            None => None,
        }
    }

    /// Indexes `location` under `asset_id`, unless another asset holds it.
    pub fn insert_if_absent(&mut self, location: MultiLocation, asset_id: AssetId) -> (result:
        Result<(), Error>)
        ensures
            old(self)@.contains_key(location@) && old(self)@[location@] != asset_id ==> result
                == Err::<(), Error>(Error::ConflictingLocation) && final(self)@ == old(self)@,
            !(old(self)@.contains_key(location@) && old(self)@[location@] != asset_id) ==> result
                == Ok::<(), Error>(()) && final(self)@ == old(self)@.insert(location@, asset_id),
    {
        proof {
            use_type_invariant(&*self);
        }
        match self.lookup(&location) {
            Some(holder) => {
                if holder != asset_id {
                    return Err(Error::ConflictingLocation);
                }
                assert(self@ =~= self@.insert(location@, asset_id));
                Ok(())
            },
            None => {
                proof {
                    lemma_push(self.entries@, (location, asset_id));
                }
                let mut entries: Vec<(MultiLocation, AssetId)> = Vec::new();
                std::mem::swap(&mut entries, &mut self.entries);
                entries.push((location, asset_id));
                self.entries = entries;
                Ok(())
            },
        }
    }

    /// Moves an asset from one location to another: drops the entry for
    /// `released` and indexes `claimed` under `asset_id`, or changes nothing
    /// where another asset holds the claimed location.
    pub fn relocate(
        &mut self,
        asset_id: AssetId,
        released: Option<&MultiLocation>,
        claimed: Option<MultiLocation>,
    ) -> (result: Result<(), Error>)
        ensures
            match moved(
                old(self)@,
                asset_id,
                match released {
                    Some(location) => Some(location@),
                    None => None,
                },
                canonical_view(claimed),
            ) {
                Ok(after) => result == Ok::<(), Error>(()) && final(self)@ == after,
                Err(e) => result == Err::<(), Error>(e) && final(self)@ == old(self)@,
            },
    {
        if let Some(location) = &claimed {
            if let Some(holder) = self.lookup(location) {
                let freed = match released {
                    Some(released) => released.same(location),
                    None => false,
                };
                if holder != asset_id && !freed {
                    return Err(Error::ConflictingLocation);
                }
            }
        }
        if let Some(location) = released {
            self.remove(location);
        }
        if let Some(location) = claimed {
            let _ = self.insert_if_absent(location, asset_id);
        }
        Ok(())
    }

    /// Drops the entry for `location`. Nothing changes where there is none.
    pub fn remove(&mut self, location: &MultiLocation)
        ensures
            final(self)@ == old(self)@.remove(location@),
    {
        proof {
            use_type_invariant(&*self);
        }
        match self.position(location) {
            Some(i) => {
                proof {
                    lemma_remove(self.entries@, i as int);
                }
                let mut entries: Vec<(MultiLocation, AssetId)> = Vec::new();
                std::mem::swap(&mut entries, &mut self.entries);
                entries.remove(i);
                self.entries = entries;
            },
            None => {
                assert(self@ =~= self@.remove(location@));
            },
        }
    }
}

} // verus!
