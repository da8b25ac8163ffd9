//! What holds of the registry whatever it contains, proved from the
//! definitions of its operations.

use crate::error::Error;
use crate::event::EventView;
use crate::location::canonical_location;
use crate::metadata::{AssetId, AssetMetadataView};
use crate::state::{MetadataChanges, RegistryState};
use vstd::prelude::*;

verus! {

/// A registration that goes through keeps the two stores in agreement.
pub proof fn law_registration_keeps_agreement(
    before: RegistryState,
    metadata: AssetMetadataView,
    asset_id: AssetId,
)
    requires
        before.consistent(),
        before.register(metadata, asset_id) is Ok,
    ensures
        before.register(metadata, asset_id)->Ok_0.consistent(),
{
}

/// An update that goes through keeps the two stores in agreement.
pub proof fn law_update_keeps_agreement(
    before: RegistryState,
    asset_id: AssetId,
    changes: MetadataChanges,
)
    requires
        before.consistent(),
        before.update(asset_id, changes) is Ok,
    ensures
        before.update(asset_id, changes)->Ok_0.consistent(),
{
}

/// Registering under an id a second time is refused with
/// `ConflictingAssetId`, and the id keeps its first record.
pub proof fn law_second_registration_of_id_conflicts(
    before: RegistryState,
    first: AssetMetadataView,
    second: AssetMetadataView,
    asset_id: AssetId,
)
    requires
        before.register(first, asset_id) is Ok,
    ensures
        ({
            let registered = before.register(first, asset_id)->Ok_0;
            let outcome = registered.register(second, asset_id);
            &&& outcome == Err::<RegistryState, Error>(Error::ConflictingAssetId)
            &&& registered.after(outcome) == registered
            &&& registered.after(outcome).metadata[asset_id] == first
        }),
{
}

/// Registering a second asset at a location that a first one was registered
/// with is refused with `ConflictingLocation`, whatever versions the two
/// were written in. The first asset keeps its record and its index entry.
pub proof fn law_second_registration_of_location_conflicts(
    before: RegistryState,
    first: AssetMetadataView,
    first_id: AssetId,
    second: AssetMetadataView,
    second_id: AssetId,
)
    requires
        before.register(first, first_id) is Ok,
        first.location is Some,
        second.location is Some,
        canonical_location(first.location->Some_0) == canonical_location(second.location->Some_0),
        second_id != first_id,
        !before.metadata.contains_key(second_id),
    ensures
        ({
            let registered = before.register(first, first_id)->Ok_0;
            let outcome = registered.register(second, second_id);
            let location = canonical_location(first.location->Some_0)->Some_0;
            &&& outcome == Err::<RegistryState, Error>(Error::ConflictingLocation)
            &&& registered.after(outcome).metadata[first_id] == first
            &&& registered.after(outcome).location_to_asset_id.contains_key(location)
            &&& registered.after(outcome).location_to_asset_id[location] == first_id
        }),
{
}

/// An asset registered with a location is found again under the canonical
/// form of that location, and the asset resolves to that canonical form.
pub proof fn law_registered_location_round_trip(
    before: RegistryState,
    metadata: AssetMetadataView,
    asset_id: AssetId,
)
    requires
        before.register(metadata, asset_id) is Ok,
        metadata.location is Some,
    ensures
        ({
            let registered = before.register(metadata, asset_id)->Ok_0;
            let location = canonical_location(metadata.location->Some_0);
            &&& location is Some
            &&& registered.fetch_by_location(location->Some_0) == Some(metadata)
            &&& registered.resolve_location(asset_id) == Ok::<Option<Seq<u8>>, Error>(location)
        }),
{
}

/// An update that supplies no field goes through and leaves both stores as
/// they are; only the event is new.
pub proof fn law_empty_update_changes_no_record(before: RegistryState, asset_id: AssetId)
    requires
        before.metadata.contains_key(asset_id),
    ensures
        before.update(asset_id, MetadataChanges::none()) == Ok::<RegistryState, Error>(
            RegistryState {
                events: before.events.push(
                    EventView::UpdatedAsset { asset_id, metadata: before.metadata[asset_id] },
                ),
                ..before
            },
        ),
{
    let after = before.update(asset_id, MetadataChanges::none())->Ok_0;
    assert(after.metadata =~= before.metadata);
}

/// Moving an asset from one location to another drops the old index entry
/// and makes the new one, so that the asset is found under the new location
/// only. Where another asset holds the new location the update is refused
/// with `ConflictingLocation`, and the asset keeps its location and its
/// index entry.
pub proof fn law_location_migration(
    before: RegistryState,
    asset_id: AssetId,
    changes: MetadataChanges,
)
    requires
        before.consistent(),
        before.metadata.contains_key(asset_id),
        before.metadata[asset_id].location is Some,
        changes.location matches Some(Some(new)) && canonical_location(new) is Some,
        canonical_location(changes.location->Some_0->Some_0) != canonical_location(
            before.metadata[asset_id].location->Some_0,
        ),
    ensures
        ({
            let old_location = canonical_location(
                before.metadata[asset_id].location->Some_0,
            )->Some_0;
            let new_location = canonical_location(changes.location->Some_0->Some_0)->Some_0;
            let outcome = before.update(asset_id, changes);
            let after = before.after(outcome);
            if before.held_by_another(new_location, asset_id) {
                &&& outcome == Err::<RegistryState, Error>(Error::ConflictingLocation)
                &&& after.metadata[asset_id].location == before.metadata[asset_id].location
                &&& after.location_to_asset_id.contains_key(old_location)
                &&& after.location_to_asset_id[old_location] == asset_id
            } else {
                &&& outcome is Ok
                &&& after.metadata[asset_id].location == changes.location->Some_0
                &&& after.fetch_by_location(old_location) is None
                &&& after.fetch_by_location(new_location) == Some(after.metadata[asset_id])
                &&& after.resolve_location(asset_id) == Ok::<Option<Seq<u8>>, Error>(
                    Some(new_location),
                )
            }
        }),
{
}

/// Clearing the location of an asset drops its index entry: nothing is found
/// under the old location, and the asset resolves to no location.
pub proof fn law_clearing_location(
    before: RegistryState,
    asset_id: AssetId,
    changes: MetadataChanges,
)
    requires
        before.consistent(),
        before.metadata.contains_key(asset_id),
        before.metadata[asset_id].location is Some,
        changes.location == Some(None::<Seq<u8>>),
    ensures
        ({
            let old_location = canonical_location(
                before.metadata[asset_id].location->Some_0,
            )->Some_0;
            let outcome = before.update(asset_id, changes);
            let after = before.after(outcome);
            &&& outcome is Ok
            &&& !after.location_to_asset_id.contains_key(old_location)
            &&& after.fetch_by_location(old_location) is None
            &&& after.resolve_location(asset_id) == Ok::<Option<Seq<u8>>, Error>(None)
            &&& forall|location: Seq<u8>| #[trigger]
                after.location_to_asset_id.contains_key(location)
                    ==> after.location_to_asset_id[location] != asset_id
        }),
{
    let outcome = before.update(asset_id, changes);
    let after = before.after(outcome);
    assert forall|location: Seq<u8>| #[trigger]
        after.location_to_asset_id.contains_key(location) implies after.location_to_asset_id[location]
        != asset_id by {
        assert(before.location_to_asset_id.contains_key(location));
    }
}

/// Registering an asset whose location has no canonical form is refused
/// with `BadVersion`, and neither store holds anything for the id
/// afterwards.
pub proof fn law_bad_version_registers_nothing(
    before: RegistryState,
    metadata: AssetMetadataView,
    asset_id: AssetId,
)
    requires
        before.consistent(),
        !before.metadata.contains_key(asset_id),
        metadata.location is Some,
        canonical_location(metadata.location->Some_0) is None,
    ensures
        ({
            let outcome = before.register(metadata, asset_id);
            let after = before.after(outcome);
            &&& outcome == Err::<RegistryState, Error>(Error::BadVersion)
            &&& !after.metadata.contains_key(asset_id)
            &&& forall|location: Seq<u8>| #[trigger]
                after.location_to_asset_id.contains_key(location)
                    ==> after.location_to_asset_id[location] != asset_id
        }),
{
}

/// In a registry whose stores agree, two assets whose locations have the
/// same canonical form are one asset.
pub proof fn law_location_names_one_asset(
    registry: RegistryState,
    first_id: AssetId,
    second_id: AssetId,
)
    requires
        registry.consistent(),
        registry.metadata.contains_key(first_id),
        registry.metadata.contains_key(second_id),
        registry.metadata[first_id].location is Some,
        registry.metadata[second_id].location is Some,
        canonical_location(registry.metadata[first_id].location->Some_0) == canonical_location(
            registry.metadata[second_id].location->Some_0,
        ),
    ensures
        first_id == second_id,
{
}

/// No operation removes a record: every id that was registered before a
/// registration or an update is registered after it.
pub proof fn law_records_persist(
    before: RegistryState,
    metadata: AssetMetadataView,
    asset_id: AssetId,
    changes: MetadataChanges,
    registered: AssetId,
)
    requires
        before.metadata.contains_key(registered),
    ensures
        before.after(before.register(metadata, asset_id)).metadata.contains_key(registered),
        before.after(before.update(asset_id, changes)).metadata.contains_key(registered),
{
}

} // verus!
