//! The registry as a mathematical value, and what each operation makes of it.

use crate::error::Error;
use crate::event::EventView;
use crate::location::canonical_location;
use crate::location_index::moved;
use crate::metadata::{AssetId, AssetMetadataView, Balance};
use vstd::prelude::*;

verus! {

/// The two stores and the log of events.
pub ghost struct RegistryState {
    pub metadata: Map<AssetId, AssetMetadataView>,
    pub location_to_asset_id: Map<Seq<u8>, AssetId>,
    pub events: Seq<EventView>,
}

/// A partial update of a record. For each field, `None` leaves it as it is.
/// For the location, `Some(None)` clears it.
pub ghost struct MetadataChanges {
    pub decimals: Option<u32>,
    pub name: Option<Seq<u8>>,
    pub symbol: Option<Seq<u8>>,
    pub existential_deposit: Option<Balance>,
    pub location: Option<Option<Seq<u8>>>,
    pub additional: Option<Seq<u8>>,
}

impl MetadataChanges {
    /// The update that changes nothing.
    pub open spec fn none() -> MetadataChanges {
        MetadataChanges {
            decimals: None,
            name: None,
            symbol: None,
            existential_deposit: None,
            location: None,
            additional: None,
        }
    }
}

impl AssetMetadataView {
    /// This record with every field that `changes` supplies overwritten.
    pub open spec fn with(self, changes: MetadataChanges) -> AssetMetadataView {
        AssetMetadataView {
            decimals: match changes.decimals {
                Some(decimals) => decimals,
                None => self.decimals,
            },
            name: match changes.name {
                Some(name) => name,
                None => self.name,
            },
            symbol: match changes.symbol {
                Some(symbol) => symbol,
                None => self.symbol,
            },
            existential_deposit: match changes.existential_deposit {
                Some(existential_deposit) => existential_deposit,
                None => self.existential_deposit,
            },
            location: match changes.location {
                Some(location) => location,
                None => self.location,
            },
            additional: match changes.additional {
                Some(additional) => additional,
                None => self.additional,
            },
        }
    }
}

/// The index after the location of `asset_id` went from `old` to `new`.
/// Where the two are the same encoding the index is not touched. Otherwise
/// the asset moves from the canonical form of the one to that of the other,
/// unless one of them has no canonical form or another asset holds the new
/// location.
pub open spec fn relocated(
    index: Map<Seq<u8>, AssetId>,
    asset_id: AssetId,
    old: Option<Seq<u8>>,
    new: Option<Seq<u8>>,
) -> Result<Map<Seq<u8>, AssetId>, Error> {
    if new == old {
        Ok(index)
    } else if old matches Some(versioned) && canonical_location(versioned) is None {
        Err(Error::BadVersion)
    } else if new matches Some(versioned) && canonical_location(versioned) is None {
        Err(Error::BadVersion)
    } else {
        moved(index, asset_id, canonical_of(old), canonical_of(new))
    }
}

/// The canonical form of an optional versioned location.
pub open spec fn canonical_of(location: Option<Seq<u8>>) -> Option<Seq<u8>> {
    match location {
        Some(versioned) => canonical_location(versioned),
        None => None,
    }
}

impl RegistryState {
    /// The registry before anything was registered.
    pub open spec fn empty() -> RegistryState {
        RegistryState {
            metadata: Map::empty(),
            location_to_asset_id: Map::empty(),
            events: Seq::empty(),
        }
    }

    /// The two stores agree: a record that names a location is indexed under
    /// that location's canonical form, and every index entry leads to a
    /// record whose location has the entry's key as its canonical form.
    pub open spec fn consistent(self) -> bool {
        &&& forall|asset_id: AssetId| #[trigger]
            self.metadata.contains_key(asset_id) ==> match self.metadata[asset_id].location {
                Some(versioned) => {
                    &&& canonical_location(versioned) matches Some(location)
                    &&& self.location_to_asset_id.contains_key(location)
                    &&& self.location_to_asset_id[location] == asset_id
                },
                None => true,
            }
        &&& forall|location: Seq<u8>| #[trigger]
            self.location_to_asset_id.contains_key(location) ==> {
                let asset_id = self.location_to_asset_id[location];
                &&& self.metadata.contains_key(asset_id)
                &&& self.metadata[asset_id].location matches Some(versioned)
                &&& canonical_location(versioned) == Some(location)
            }
    }

    /// The registry with `metadata` stored under `asset_id`, its location
    /// indexed and the registration logged.
    pub open spec fn with_registered(
        self,
        metadata: AssetMetadataView,
        asset_id: AssetId,
        location: Option<Seq<u8>>,
    ) -> RegistryState {
        RegistryState {
            metadata: self.metadata.insert(asset_id, metadata),
            location_to_asset_id: match location {
                Some(l) => self.location_to_asset_id.insert(l, asset_id),
                None => self.location_to_asset_id,
            },
            events: self.events.push(EventView::RegisteredAsset { asset_id, metadata }),
        }
    }

    /// What registering `metadata` under `asset_id` comes to: the registry
    /// afterwards, or the error that leaves it as it is.
    pub open spec fn register(self, metadata: AssetMetadataView, asset_id: AssetId) -> Result<
        RegistryState,
        Error,
    > {
        if self.metadata.contains_key(asset_id) {
            Err(Error::ConflictingAssetId)
        } else {
            match metadata.location {
                None => Ok(self.with_registered(metadata, asset_id, None)),
                Some(versioned) => match canonical_location(versioned) {
                    None => Err(Error::BadVersion),
                    Some(location) => if self.held_by_another(location, asset_id) {
                        Err(Error::ConflictingLocation)
                    } else {
                        Ok(self.with_registered(metadata, asset_id, Some(location)))
                    },
                },
            }
        }
    }

    /// Whether an asset other than `asset_id` holds `location`.
    pub open spec fn held_by_another(self, location: Seq<u8>, asset_id: AssetId) -> bool {
        self.location_to_asset_id.contains_key(location) && self.location_to_asset_id[location]
            != asset_id
    }

    /// What updating the record of `asset_id` by `changes` comes to: the
    /// registry afterwards, or the error that leaves it as it is.
    pub open spec fn update(self, asset_id: AssetId, changes: MetadataChanges) -> Result<
        RegistryState,
        Error,
    > {
        if !self.metadata.contains_key(asset_id) {
            Err(Error::AssetNotFound)
        } else {
            let current = self.metadata[asset_id];
            let updated = current.with(changes);
            let index = match changes.location {
                Some(new) => relocated(self.location_to_asset_id, asset_id, current.location, new),
                None => Ok(self.location_to_asset_id),
            };
            match index {
                Err(e) => Err(e),
                Ok(location_to_asset_id) => Ok(
                    RegistryState {
                        metadata: self.metadata.insert(asset_id, updated),
                        location_to_asset_id,
                        events: self.events.push(
                            EventView::UpdatedAsset { asset_id, metadata: updated },
                        ),
                    },
                ),
            }
        }
    }

    /// The registry after an operation that came to `outcome`: the new
    /// registry where it went through, this one where it was refused.
    pub open spec fn after(self, outcome: Result<RegistryState, Error>) -> RegistryState {
        match outcome {
            Ok(after) => after,
            Err(_) => self,
        }
    }

    /// The record of the asset that holds `location`.
    pub open spec fn fetch_by_location(self, location: Seq<u8>) -> Option<AssetMetadataView> {
        if self.location_to_asset_id.contains_key(location) && self.metadata.contains_key(
            self.location_to_asset_id[location],
        ) {
            Some(self.metadata[self.location_to_asset_id[location]])
        } else {
            None
        }
    }

    /// The canonical location of `asset_id`: `None` where the id has no
    /// record or its record names no location.
    pub open spec fn resolve_location(self, asset_id: AssetId) -> Result<Option<Seq<u8>>, Error> {
        if !self.metadata.contains_key(asset_id) {
            Ok(None)
        } else {
            match self.metadata[asset_id].location {
                None => Ok(None),
                Some(versioned) => match canonical_location(versioned) {
                    Some(location) => Ok(Some(location)),
                    None => Err(Error::BadVersion),
                },
            }
        }
    }
}

} // verus!
