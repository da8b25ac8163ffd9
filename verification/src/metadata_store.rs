//! The store of asset records, keyed by asset id.

use crate::error::Error;
use crate::metadata::{AssetId, AssetMetadata, AssetMetadataView};
use std::collections::HashMap;
use vstd::prelude::*;

verus! {

broadcast use vstd::std_specs::hash::group_hash_axioms;

/// Maps each registered asset id to its one record.
pub struct MetadataStore {
    records: HashMap<AssetId, AssetMetadata>,
}

impl View for MetadataStore {
    type V = Map<AssetId, AssetMetadataView>;

    closed spec fn view(&self) -> Map<AssetId, AssetMetadataView> {
        self.records@.map_values(|m: AssetMetadata| m@)
    }
}

impl MetadataStore {
    /// A store that holds no record.
    pub fn new() -> (store: Self)
        ensures
            store@ == Map::<AssetId, AssetMetadataView>::empty(),
    {
        let store = MetadataStore { records: HashMap::new() };
        assert(store@ =~= Map::<AssetId, AssetMetadataView>::empty());
        store
    }

    /// The record of `asset_id`, if it is registered.
    pub fn get(&self, asset_id: AssetId) -> (record: Option<&AssetMetadata>)
        ensures
            match record {
                Some(m) => self@.contains_key(asset_id) && self@[asset_id] == m@,
                None => !self@.contains_key(asset_id),
            },
    {
        self.records.get(&asset_id)
    }

    /// Stores `metadata` as the record of `asset_id`, unless the id already
    /// has one.
    pub fn insert_if_absent(&mut self, asset_id: AssetId, metadata: AssetMetadata) -> (result:
        Result<(), Error>)
        ensures
            old(self)@.contains_key(asset_id) ==> result == Err::<(), Error>(
                Error::ConflictingAssetId,
            ) && final(self)@ == old(self)@,
            !old(self)@.contains_key(asset_id) ==> result == Ok::<(), Error>(()) && final(self)@
                == old(self)@.insert(asset_id, metadata@),
    {
        if self.records.contains_key(&asset_id) {
            return Err(Error::ConflictingAssetId);
        }
        self.records.insert(asset_id, metadata);
        assert(self@ =~= old(self)@.insert(asset_id, metadata@));
        Ok(())
    }

    /// Puts `metadata` in the place of the record that `asset_id` has.
    pub fn mutate_existing(&mut self, asset_id: AssetId, metadata: AssetMetadata) -> (result:
        Result<(), Error>)
        ensures
            !old(self)@.contains_key(asset_id) ==> result == Err::<(), Error>(Error::AssetNotFound)
                && final(self)@ == old(self)@,
            old(self)@.contains_key(asset_id) ==> result == Ok::<(), Error>(()) && final(self)@
                == old(self)@.insert(asset_id, metadata@),
    {
        if !self.records.contains_key(&asset_id) {
            return Err(Error::AssetNotFound);
        }
        self.records.insert(asset_id, metadata);
        assert(self@ =~= old(self)@.insert(asset_id, metadata@));
        Ok(())
    }

    /// Takes back a record that was stored by a registration that did not
    /// go through.
    pub(crate) fn discard(&mut self, asset_id: AssetId)
        ensures
            final(self)@ == old(self)@.remove(asset_id),
    {
        self.records.remove(&asset_id);
        assert(self@ =~= old(self)@.remove(asset_id));
    }
}

} // verus!
