//! The registry itself: the two stores, kept in agreement.

use crate::error::{DispatchError, Error};
use crate::event::{events_view, Event, EventView};
use crate::location::{
    bytes_view, canonical_location, canonical_view, versioned_view, MultiLocation,
    VersionedMultiLocation,
};
use crate::location_index::LocationIndex;
use crate::metadata::{
    metadata_view, AssetId, AssetMetadata, AssetMetadataView, Balance, CustomMetadata,
};
use crate::metadata_store::MetadataStore;
use crate::processor::{AssetProcessor, Config};
use crate::laws::{law_registration_keeps_agreement, law_update_keeps_agreement};
use crate::state::{relocated, MetadataChanges, RegistryState};
use std::marker::PhantomData;
use vstd::prelude::*;

verus! {

/// What the registry holds. An operation takes the stores out of the
/// registry while it changes them and puts them back once they agree again.
struct Stores {
    metadata: MetadataStore,
    location_to_asset_id: LocationIndex,
    events: Vec<Event>,
}

impl Stores {
    spec fn state(&self) -> RegistryState {
        RegistryState {
            metadata: self.metadata@,
            location_to_asset_id: self.location_to_asset_id@,
            events: events_view(self.events@),
        }
    }

    fn new() -> (stores: Self)
        ensures
            stores.state() == RegistryState::empty(),
    {
        let stores = Stores {
            metadata: MetadataStore::new(),
            location_to_asset_id: LocationIndex::new(),
            events: Vec::new(),
        };
        assert(stores.state().events =~= Seq::empty());
        stores
    }
}

/// The registry of one deployment `T`.
pub struct Pallet<T: Config> {
    stores: Stores,
    config: PhantomData<T>,
}

impl<T: Config> View for Pallet<T> {
    type V = RegistryState;

    closed spec fn view(&self) -> RegistryState {
        self.stores.state()
    }
}

/// The changes that the arguments of an update ask for.
pub open spec fn changes_view(
    decimals: Option<u32>,
    name: Option<Vec<u8>>,
    symbol: Option<Vec<u8>>,
    existential_deposit: Option<Balance>,
    location: Option<Option<VersionedMultiLocation>>,
    additional: Option<CustomMetadata>,
) -> MetadataChanges {
    MetadataChanges {
        decimals,
        name: bytes_view(name),
        symbol: bytes_view(symbol),
        existential_deposit,
        location: match location {
            Some(l) => Some(versioned_view(l)),
            None => None,
        },
        additional: bytes_view(additional),
    }
}

/// Whether `after` is `before` with one more asset registered: the newest
/// event names the asset, and registering it in `before` gives `after`.
pub open spec fn registered_one(before: RegistryState, after: RegistryState) -> bool {
    &&& after.events.len() == before.events.len() + 1
    &&& after.events.last() matches EventView::RegisteredAsset { asset_id, metadata }
    &&& before.register(metadata, asset_id) == Ok::<RegistryState, Error>(after)
}

/// Whether the processor of `T` can answer a registration of `metadata`
/// under `asset_id` with `processed` before the registry is touched and,
/// where the registry then takes the asset, with `told` after it.
pub open spec fn processor_answers<T: Config>(
    before: RegistryState,
    metadata: AssetMetadata,
    asset_id: Option<AssetId>,
    processed: Result<(AssetId, AssetMetadata), DispatchError>,
    told: Result<(), DispatchError>,
) -> bool {
    &&& call_ensures(T::AssetProcessor::pre_register, (asset_id, metadata), processed)
    &&& processed matches Ok((id, m)) ==> before.register(m@, id) is Ok ==> call_ensures(
        T::AssetProcessor::post_register,
        (id, m),
        told,
    )
}

/// What a registration comes to, given the processor's two answers: the
/// registry afterwards, or the error that leaves it as it is. The asset is
/// registered as the processor gave it back, and an error from the
/// processor, before or after, is the error of the registration.
pub open spec fn processed_registration(
    before: RegistryState,
    processed: Result<(AssetId, AssetMetadata), DispatchError>,
    told: Result<(), DispatchError>,
) -> Result<RegistryState, DispatchError> {
    match processed {
        Err(e) => Err(e),
        Ok((asset_id, metadata)) => match before.register(metadata@, asset_id) {
            Err(e) => Err(DispatchError::Module(e)),
            Ok(after) => match told {
                Ok(_) => Ok(after),
                Err(e) => Err(e),
            },
        },
    }
}

/// Whether `result` and `after` are what an operation on `before` that came
/// to `outcome` returns and leaves.
pub open spec fn dispatched(
    before: RegistryState,
    outcome: Result<RegistryState, DispatchError>,
    result: Result<(), DispatchError>,
    after: RegistryState,
) -> bool {
    match outcome {
        Ok(registry) => result == Ok::<(), DispatchError>(()) && after == registry,
        Err(e) => result == Err::<(), DispatchError>(e) && after == before,
    }
}

/// The outcome of a registry operation as a dispatch reports it.
pub open spec fn module_outcome(outcome: Result<RegistryState, Error>) -> Result<
    RegistryState,
    DispatchError,
> {
    match outcome {
        Ok(registry) => Ok(registry),
        Err(e) => Err(DispatchError::Module(e)),
    }
}

impl<T: Config> Pallet<T> {
    #[verifier::type_invariant]
    spec fn well_formed(&self) -> bool {
        self.stores.state().consistent()
    }

    /// A registry that holds nothing.
    pub fn new() -> (pallet: Self)
        ensures
            pallet@ == RegistryState::empty(),
            pallet@.consistent(),
    {
        Pallet { stores: Stores::new(), config: PhantomData }
    }

    /// Registers an asset on behalf of a caller. `authorized` says whether
    /// the deployment's check of the caller's origin passed; without it the
    /// call is refused with `BadOrigin` and the processor is not asked.
    pub fn register_asset(
        &mut self,
        authorized: bool,
        metadata: AssetMetadata,
        asset_id: Option<AssetId>,
    ) -> (result: Result<(), DispatchError>)
        ensures
            final(self)@.consistent(),
            !authorized ==> result == Err::<(), DispatchError>(DispatchError::BadOrigin),
            authorized ==> exists|
                processed: Result<(AssetId, AssetMetadata), DispatchError>,
                told: Result<(), DispatchError>,
            |
                {
                    &&& #[trigger] processor_answers::<T>(
                        old(self)@,
                        metadata,
                        asset_id,
                        processed,
                        told,
                    )
                    &&& dispatched(
                        old(self)@,
                        processed_registration(old(self)@, processed, told),
                        result,
                        final(self)@,
                    )
                },
            match result {
                Ok(_) => registered_one(old(self)@, final(self)@),
                Err(_) => final(self)@ == old(self)@,
            },
    {
        proof {
            use_type_invariant(&*self);
        }
        if !authorized {
            return Err(DispatchError::BadOrigin);
        }
        self.do_register_asset(metadata, asset_id)
    }

    /// Updates an asset on behalf of a caller. `authorized` says whether the
    /// deployment's check of the caller's origin passed; without it the call
    /// is refused with `BadOrigin`.
    pub fn update_asset(
        &mut self,
        authorized: bool,
        asset_id: AssetId,
        decimals: Option<u32>,
        name: Option<Vec<u8>>,
        symbol: Option<Vec<u8>>,
        existential_deposit: Option<Balance>,
        location: Option<Option<VersionedMultiLocation>>,
        additional: Option<CustomMetadata>,
    ) -> (result: Result<(), DispatchError>)
        ensures
            final(self)@.consistent(),
            dispatched(
                old(self)@,
                if authorized {
                    module_outcome(
                        old(self)@.update(
                            asset_id,
                            changes_view(
                                decimals,
                                name,
                                symbol,
                                existential_deposit,
                                location,
                                additional,
                            ),
                        ),
                    )
                } else {
                    Err(DispatchError::BadOrigin)
                },
                result,
                final(self)@,
            ),
    {
        proof {
            use_type_invariant(&*self);
        }
        if !authorized {
            return Err(DispatchError::BadOrigin);
        }
        self.do_update_asset(
            asset_id,
            decimals,
            name,
            symbol,
            existential_deposit,
            location,
            additional,
        )
    }

    /// Register a new asset: ask the processor for the id and metadata to
    /// register, store them, and tell the processor. Where the processor
    /// fails, before or after, or the registry refuses, nothing changes.
    pub fn do_register_asset(
        &mut self,
        metadata: AssetMetadata,
        asset_id: Option<AssetId>,
    ) -> (result: Result<(), DispatchError>)
        ensures
            final(self)@.consistent(),
            exists|
                processed: Result<(AssetId, AssetMetadata), DispatchError>,
                told: Result<(), DispatchError>,
            |
                {
                    &&& #[trigger] processor_answers::<T>(
                        old(self)@,
                        metadata,
                        asset_id,
                        processed,
                        told,
                    )
                    &&& dispatched(
                        old(self)@,
                        processed_registration(old(self)@, processed, told),
                        result,
                        final(self)@,
                    )
                },
            match result {
                Ok(_) => registered_one(old(self)@, final(self)@),
                Err(_) => final(self)@ == old(self)@,
            },
    {
        proof {
            use_type_invariant(&*self);
        }
        let ghost before = self@;
        let processed = T::AssetProcessor::pre_register(asset_id, metadata);
        let (id, processed_metadata) = match processed {
            Ok(pair) => pair,
            Err(e) => {
                // the processor is not asked a second time
                assert(processor_answers::<T>(before, metadata, asset_id, processed, Ok(())));
                return Err(e);
            },
        };
        let location = match self.register(processed_metadata.clone(), id) {
            Ok(location) => location,
            Err(e) => {
                assert(processor_answers::<T>(before, metadata, asset_id, processed, Ok(())));
                return Err(DispatchError::Module(e));
            },
        };
        let told = T::AssetProcessor::post_register(id, processed_metadata);
        assert(processor_answers::<T>(before, metadata, asset_id, processed, told));
        match told {
            Ok(_) => Ok(()),
            Err(e) => {
                // the asset is in the registry by now: take it out again
                self.unregister(id, location, Ghost(before));
                Err(e)
            },
        }
    }

    /// Like do_register_asset, but without calling pre_register and
    /// post_register hooks.
    /// This function is useful in tests but it might also come in useful to
    /// users.
    pub fn do_register_asset_without_asset_processor(
        &mut self,
        metadata: AssetMetadata,
        asset_id: AssetId,
    ) -> (result: Result<(), DispatchError>)
        ensures
            final(self)@.consistent(),
            dispatched(
                old(self)@,
                module_outcome(old(self)@.register(metadata@, asset_id)),
                result,
                final(self)@,
            ),
    {
        proof {
            use_type_invariant(&*self);
        }
        match self.register(metadata, asset_id) {
            Ok(_) => Ok(()),
            Err(e) => Err(DispatchError::Module(e)),
        }
    }

    /// Stores the record, indexes its location and logs the registration,
    /// or changes nothing. Gives the location that it indexed.
    fn register(&mut self, metadata: AssetMetadata, asset_id: AssetId) -> (result: Result<
        Option<MultiLocation>,
        Error,
    >)
        ensures
            final(self)@.consistent(),
            match old(self)@.register(metadata@, asset_id) {
                Ok(after) => {
                    &&& result matches Ok(location)
                    &&& final(self)@ == after
                    &&& final(self)@ == old(self)@.with_registered(
                        metadata@,
                        asset_id,
                        canonical_view(location),
                    )
                    &&& canonical_view(location) matches Some(l)
                        ==> !old(self)@.location_to_asset_id.contains_key(l)
                },
                Err(e) => {
                    &&& result == Err::<Option<MultiLocation>, Error>(e)
                    &&& final(self)@ == old(self)@
                },
            },
    {
        proof {
            use_type_invariant(&*self);
        }
        if self.stores.metadata.get(asset_id).is_some() {
            return Err(Error::ConflictingAssetId);
        }
        let mut stores = Stores::new();
        std::mem::swap(&mut stores, &mut self.stores);
        let mut indexed: Option<MultiLocation> = None;
        if let Some(location) = &metadata.location {
            match Self::do_insert_location(&mut stores.location_to_asset_id, asset_id, location) {
                Ok(canonical) => {
                    indexed = Some(canonical);
                },
                Err(e) => {
                    self.stores = stores;
                    return Err(e);
                },
            }
        }
        let logged = metadata.clone();
        let _ = stores.metadata.insert_if_absent(asset_id, metadata);
        stores.events.push(Event::RegisteredAsset { asset_id, metadata: logged });
        proof {
            law_registration_keeps_agreement(old(self)@, metadata@, asset_id);
            assert(stores.state().events =~= old(self)@.events.push(
                EventView::RegisteredAsset { asset_id, metadata: metadata@ },
            ));
        }
        self.stores = stores;
        Ok(indexed)
    }

    /// Takes back the registration of `asset_id` that led from `before` to
    /// the registry as it is.
    fn unregister(
        &mut self,
        asset_id: AssetId,
        location: Option<MultiLocation>,
        Ghost(before): Ghost<RegistryState>,
    )
        requires
            before.consistent(),
            !before.metadata.contains_key(asset_id),
            canonical_view(location) matches Some(l) ==> !before.location_to_asset_id.contains_key(
                l,
            ),
            exists|metadata: AssetMetadataView|
                old(self)@ == #[trigger] before.with_registered(
                    metadata,
                    asset_id,
                    canonical_view(location),
                ),
        ensures
            final(self)@ == before,
    {
        let mut stores = Stores::new();
        std::mem::swap(&mut stores, &mut self.stores);
        if let Some(l) = &location {
            stores.location_to_asset_id.remove(l);
        }
        stores.metadata.discard(asset_id);
        let ghost logged = stores.events@;
        assert(events_view(logged).len() == before.events.len() + 1);
        stores.events.pop();
        proof {
            assert(stores.state().metadata =~= before.metadata);
            assert(stores.state().location_to_asset_id =~= before.location_to_asset_id);
            assert(stores.events@ =~= logged.drop_last());
            assert(stores.state().events =~= events_view(logged).drop_last());
            assert(stores.state().events =~= before.events);
        }
        self.stores = stores;
    }

    /// Updates the record of `asset_id`: every field that is supplied is
    /// overwritten, and the index follows a change of the location. Where
    /// the location cannot change as asked, nothing changes.
    pub fn do_update_asset(
        &mut self,
        asset_id: AssetId,
        decimals: Option<u32>,
        name: Option<Vec<u8>>,
        symbol: Option<Vec<u8>>,
        existential_deposit: Option<Balance>,
        location: Option<Option<VersionedMultiLocation>>,
        additional: Option<CustomMetadata>,
    ) -> (result: Result<(), DispatchError>)
        ensures
            final(self)@.consistent(),
            dispatched(
                old(self)@,
                module_outcome(
                    old(self)@.update(
                        asset_id,
                        changes_view(
                            decimals,
                            name,
                            symbol,
                            existential_deposit,
                            location,
                            additional,
                        ),
                    ),
                ),
                result,
                final(self)@,
            ),
    {
        proof {
            use_type_invariant(&*self);
        }
        let ghost changes = changes_view(
            decimals,
            name,
            symbol,
            existential_deposit,
            location,
            additional,
        );
        let mut metadata = match self.stores.metadata.get(asset_id) {
            Some(current) => current.clone(),
            None => {
                return Err(DispatchError::Module(Error::AssetNotFound));
            },
        };
        let mut stores = Stores::new();
        std::mem::swap(&mut stores, &mut self.stores);
        if let Some(decimals) = decimals {
            metadata.decimals = decimals;
        }
        if let Some(name) = name {
            metadata.name = name;
        }
        if let Some(symbol) = symbol {
            metadata.symbol = symbol;
        }
        if let Some(existential_deposit) = existential_deposit {
            metadata.existential_deposit = existential_deposit;
        }
        if let Some(location) = location {
            match Self::do_update_location(
                &mut stores.location_to_asset_id,
                asset_id,
                &metadata.location,
                &location,
            ) {
                Ok(_) => {},
                Err(e) => {
                    self.stores = stores;
                    return Err(DispatchError::Module(e));
                },
            }
            metadata.location = location;
        }
        if let Some(additional) = additional {
            metadata.additional = additional;
        }
        let logged = metadata.clone();
        let _ = stores.metadata.mutate_existing(asset_id, metadata);
        stores.events.push(Event::UpdatedAsset { asset_id, metadata: logged });
        proof {
            law_update_keeps_agreement(old(self)@, asset_id, changes);
            assert(stores.state().events =~= old(self)@.events.push(
                EventView::UpdatedAsset { asset_id, metadata: metadata@ },
            ));
        }
        self.stores = stores;
        Ok(())
    }

    /// The record of the asset that holds `location`.
    pub fn fetch_metadata_by_location(&self, location: &MultiLocation) -> (metadata: Option<
        AssetMetadata,
    >)
        ensures
            self@.consistent(),
            metadata_view(metadata) == self@.fetch_by_location(location@),
    {
        proof {
            use_type_invariant(self);
        }
        let asset_id = match self.stores.location_to_asset_id.lookup(location) {
            Some(asset_id) => asset_id,
            None => {
                return None;
            },
        };
        match self.stores.metadata.get(asset_id) {
            Some(metadata) => Some(metadata.clone()),
            None => None,
        }
    }

    /// The canonical location of an asset: `None` where the id has no record
    /// or its record names no location.
    pub fn multilocation(&self, asset_id: &AssetId) -> (location: Result<
        Option<MultiLocation>,
        DispatchError,
    >)
        ensures
            self@.consistent(),
            match self@.resolve_location(*asset_id) {
                Ok(resolved) => location matches Ok(l) && canonical_view(l) == resolved,
                Err(e) => location == Err::<Option<MultiLocation>, DispatchError>(
                    DispatchError::Module(e),
                ),
            },
    {
        proof {
            use_type_invariant(self);
        }
        match self.stores.metadata.get(*asset_id) {
            None => Ok(None),
            Some(metadata) => match &metadata.location {
                None => Ok(None),
                Some(versioned) => match versioned.canonical() {
                    Some(location) => Ok(Some(location)),
                    None => Err(DispatchError::Module(Error::BadVersion)),
                },
            },
        }
    }

    /// update the location index if the location changed
    fn do_update_location(
        index: &mut LocationIndex,
        asset_id: AssetId,
        old_location: &Option<VersionedMultiLocation>,
        new_location: &Option<VersionedMultiLocation>,
    ) -> (result: Result<(), Error>)
        ensures
            match relocated(
                old(index)@,
                asset_id,
                versioned_view(*old_location),
                versioned_view(*new_location),
            ) {
                Ok(after) => result == Ok::<(), Error>(()) && final(index)@ == after,
                Err(e) => result == Err::<(), Error>(e) && final(index)@ == old(index)@,
            },
    {
        // update the index only if the location changed
        if same_location(new_location, old_location) {
            return Ok(());
        }
        // find the old location lookup if it exists
        let released = match old_location {
            Some(old_location) => match old_location.canonical() {
                Some(location) => Some(location),
                None => {
                    return Err(Error::BadVersion);
                },
            },
            None => None,
        };
        // find the new one
        let claimed = match new_location {
            Some(new_location) => match new_location.canonical() {
                Some(location) => Some(location),
                None => {
                    return Err(Error::BadVersion);
                },
            },
            None => None,
        };
        // move the lookup, unless another asset holds the new location
        index.relocate(asset_id, released.as_ref(), claimed)
    }

    /// insert location into the location index
    fn do_insert_location(
        index: &mut LocationIndex,
        asset_id: AssetId,
        location: &VersionedMultiLocation,
    ) -> (result: Result<MultiLocation, Error>)
        ensures
            match canonical_location(location@) {
                None => result == Err::<MultiLocation, Error>(Error::BadVersion) && final(index)@
                    == old(index)@,
                Some(canonical) => if old(index)@.contains_key(canonical) && old(index)@[canonical]
                    != asset_id {
                    &&& result == Err::<MultiLocation, Error>(Error::ConflictingLocation)
                    &&& final(index)@ == old(index)@
                } else {
                    &&& result matches Ok(indexed)
                    &&& indexed@ == canonical
                    &&& final(index)@ == old(index)@.insert(canonical, asset_id)
                },
            },
    {
        let canonical = match location.canonical() {
            Some(canonical) => canonical,
            None => {
                return Err(Error::BadVersion);
            },
        };
        match index.insert_if_absent(canonical.clone(), asset_id) {
            Ok(_) => Ok(canonical),
            Err(e) => Err(e),
        }
    }

    /// The record of `asset_id`, if it is registered.
    pub fn metadata(&self, asset_id: AssetId) -> (metadata: Option<AssetMetadata>)
        ensures
            metadata_view(metadata) == if self@.metadata.contains_key(asset_id) {
                Some(self@.metadata[asset_id])
            } else {
                None
            },
    {
        match self.stores.metadata.get(asset_id) {
            Some(metadata) => Some(metadata.clone()),
            None => None,
        }
    }

    /// The asset that holds `location`, if any does.
    pub fn location_to_asset_id(&self, location: &MultiLocation) -> (asset_id: Option<AssetId>)
        ensures
            asset_id == if self@.location_to_asset_id.contains_key(location@) {
                Some(self@.location_to_asset_id[location@])
            } else {
                None
            },
    {
        self.stores.location_to_asset_id.lookup(location)
    }

    /// The events logged so far, oldest first.
    pub fn events(&self) -> (events: &Vec<Event>)
        ensures
            events_view(events@) == self@.events,
    {
        &self.stores.events
    }

    /// Hands the logged events over, oldest first, and starts the log anew.
    /// The two stores stay as they are.
    pub fn take_events(&mut self) -> (events: Vec<Event>)
        ensures
            final(self)@.consistent(),
            events_view(events@) == old(self)@.events,
            final(self)@ == (RegistryState { events: Seq::empty(), ..old(self)@ }),
    {
        proof {
            use_type_invariant(&*self);
        }
        let mut stores = Stores::new();
        std::mem::swap(&mut stores, &mut self.stores);
        let mut events: Vec<Event> = Vec::new();
        std::mem::swap(&mut events, &mut stores.events);
        assert(stores.state().events =~= Seq::empty());
        self.stores = stores;
        events
    }
}

/// Whether two optional locations are the same: both absent, or the same
/// encoding.
fn same_location(a: &Option<VersionedMultiLocation>, b: &Option<VersionedMultiLocation>) -> (same:
    bool)
    ensures
        same == (versioned_view(*a) == versioned_view(*b)),
{
    match (a, b) {
        (Some(a), Some(b)) => a.same(b),
        (None, None) => true,
        _ => false,
    }
}

} // verus!
