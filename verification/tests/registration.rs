use asset_registry::{
    AssetMetadata, Config, DispatchError, Error, Event, MultiLocation, Pallet, PassThrough,
    VersionedMultiLocation,
};
use parity_scale_codec::Encode;
use staging_xcm::v2::{Junction, Junctions, MultiLocation as XcmLocation};
use staging_xcm::VersionedMultiLocation as XcmVersioned;

struct Runtime;

impl Config for Runtime {
    type AssetProcessor = PassThrough;
}

fn versioned(location: XcmLocation) -> VersionedMultiLocation {
    VersionedMultiLocation::new(XcmVersioned::V2(location).encode())
}

fn canonical(location: XcmLocation) -> MultiLocation {
    MultiLocation::new(location.encode())
}

fn parachain(id: u32) -> XcmLocation {
    XcmLocation::new(1, Junctions::X1(Junction::Parachain(id)))
}

fn unsupported_location() -> VersionedMultiLocation {
    let consensus = staging_xcm::v3::Junction::GlobalConsensus(staging_xcm::v3::NetworkId::Kusama);
    let location =
        staging_xcm::v3::MultiLocation::new(0, staging_xcm::v3::Junctions::X1(consensus));
    VersionedMultiLocation::new(XcmVersioned::V3(location).encode())
}

fn usdc(location: Option<VersionedMultiLocation>) -> AssetMetadata {
    AssetMetadata {
        decimals: 6,
        name: "USD Coin".as_bytes().to_vec(),
        symbol: "USDC".as_bytes().to_vec(),
        existential_deposit: 1,
        location,
        additional: vec![],
    }
}

fn dot(location: Option<VersionedMultiLocation>) -> AssetMetadata {
    AssetMetadata {
        decimals: 10,
        name: "Polkadot".as_bytes().to_vec(),
        symbol: "DOT".as_bytes().to_vec(),
        existential_deposit: 100,
        location,
        additional: vec![7, 7],
    }
}

#[test]
fn new_registry_is_empty() {
    let registry = Pallet::<Runtime>::new();
    assert_eq!(registry.metadata(0), None);
    assert_eq!(registry.metadata(7), None);
    assert_eq!(registry.location_to_asset_id(&canonical(XcmLocation::parent())), None);
    assert!(registry.events().is_empty());
}

#[test]
fn registration_stores_record_and_index_entry() {
    let mut registry = Pallet::<Runtime>::new();
    let metadata = usdc(Some(versioned(XcmLocation::parent())));
    assert_eq!(registry.do_register_asset_without_asset_processor(metadata.clone(), 7), Ok(()));
    assert_eq!(registry.metadata(7), Some(metadata.clone()));
    assert_eq!(registry.location_to_asset_id(&canonical(XcmLocation::parent())), Some(7));
    assert_eq!(registry.events(), &vec![Event::RegisteredAsset { asset_id: 7, metadata }]);
}

#[test]
fn registration_without_location_indexes_nothing() {
    let mut registry = Pallet::<Runtime>::new();
    assert_eq!(registry.do_register_asset_without_asset_processor(usdc(None), 7), Ok(()));
    assert_eq!(registry.metadata(7), Some(usdc(None)));
    assert_eq!(registry.location_to_asset_id(&canonical(XcmLocation::parent())), None);
    assert_eq!(registry.multilocation(&7), Ok(None));
}

#[test]
fn same_id_twice_is_conflicting_asset_id() {
    let mut registry = Pallet::<Runtime>::new();
    let first = usdc(Some(versioned(XcmLocation::parent())));
    assert_eq!(registry.register_asset(true, first.clone(), Some(7)), Ok(()));
    assert_eq!(
        registry.register_asset(true, dot(Some(versioned(parachain(2000)))), Some(7)),
        Err(DispatchError::Module(Error::ConflictingAssetId))
    );
    assert_eq!(registry.metadata(7), Some(first.clone()));
    assert_eq!(registry.location_to_asset_id(&canonical(XcmLocation::parent())), Some(7));
    assert_eq!(registry.location_to_asset_id(&canonical(parachain(2000))), None);
    assert_eq!(registry.events(), &vec![Event::RegisteredAsset { asset_id: 7, metadata: first }]);
}

#[test]
fn same_id_twice_is_refused_before_the_location_is_looked_at() {
    let mut registry = Pallet::<Runtime>::new();
    assert_eq!(registry.do_register_asset_without_asset_processor(usdc(None), 7), Ok(()));
    assert_eq!(
        registry.do_register_asset_without_asset_processor(dot(Some(unsupported_location())), 7),
        Err(DispatchError::Module(Error::ConflictingAssetId))
    );
}

#[test]
fn same_location_twice_is_conflicting_location() {
    let mut registry = Pallet::<Runtime>::new();
    let first = usdc(Some(versioned(parachain(2000))));
    assert_eq!(registry.register_asset(true, first.clone(), Some(1)), Ok(()));
    assert_eq!(
        registry.register_asset(true, dot(Some(versioned(parachain(2000)))), Some(2)),
        Err(DispatchError::Module(Error::ConflictingLocation))
    );
    assert_eq!(registry.metadata(1), Some(first.clone()));
    assert_eq!(registry.metadata(2), None);
    assert_eq!(registry.location_to_asset_id(&canonical(parachain(2000))), Some(1));
    assert_eq!(registry.fetch_metadata_by_location(&canonical(parachain(2000))), Some(first));
    assert_eq!(registry.events().len(), 1);
}

#[test]
fn same_location_in_another_version_is_conflicting_location() {
    let mut registry = Pallet::<Runtime>::new();
    let first = usdc(Some(versioned(XcmLocation::parent())));
    assert_eq!(registry.register_asset(true, first.clone(), Some(1)), Ok(()));
    let newer = VersionedMultiLocation::new(
        XcmVersioned::V3(staging_xcm::v3::MultiLocation::parent()).encode(),
    );
    assert_eq!(
        registry.register_asset(true, dot(Some(newer)), Some(2)),
        Err(DispatchError::Module(Error::ConflictingLocation))
    );
    assert_eq!(registry.metadata(2), None);
    assert_eq!(registry.location_to_asset_id(&canonical(XcmLocation::parent())), Some(1));
}

#[test]
fn different_locations_register_side_by_side() {
    let mut registry = Pallet::<Runtime>::new();
    let first = usdc(Some(versioned(parachain(2000))));
    let second = dot(Some(versioned(parachain(2001))));
    assert_eq!(registry.register_asset(true, first.clone(), Some(1)), Ok(()));
    assert_eq!(registry.register_asset(true, second.clone(), Some(2)), Ok(()));
    assert_eq!(registry.fetch_metadata_by_location(&canonical(parachain(2000))), Some(first));
    assert_eq!(registry.fetch_metadata_by_location(&canonical(parachain(2001))), Some(second));
    assert_eq!(registry.events().len(), 2);
}

#[test]
fn unsupported_version_registers_nothing() {
    let mut registry = Pallet::<Runtime>::new();
    assert_eq!(
        registry.register_asset(true, usdc(Some(unsupported_location())), Some(7)),
        Err(DispatchError::Module(Error::BadVersion))
    );
    assert_eq!(registry.metadata(7), None);
    assert_eq!(registry.multilocation(&7), Ok(None));
    assert!(registry.events().is_empty());
    assert_eq!(registry.register_asset(true, usdc(None), Some(7)), Ok(()));
}

#[test]
fn bytes_that_are_no_location_register_nothing() {
    let mut registry = Pallet::<Runtime>::new();
    for bytes in [vec![], vec![9, 1, 0], vec![1, 1], vec![1, 1, 0, 0]] {
        let location = VersionedMultiLocation::new(bytes);
        assert_eq!(
            registry.do_register_asset_without_asset_processor(usdc(Some(location)), 7),
            Err(DispatchError::Module(Error::BadVersion))
        );
        assert_eq!(registry.metadata(7), None);
    }
    assert!(registry.events().is_empty());
}

#[test]
fn unauthorized_registration_is_bad_origin() {
    let mut registry = Pallet::<Runtime>::new();
    assert_eq!(
        registry.register_asset(false, usdc(Some(versioned(XcmLocation::parent()))), Some(7)),
        Err(DispatchError::BadOrigin)
    );
    assert_eq!(registry.metadata(7), None);
    assert_eq!(registry.location_to_asset_id(&canonical(XcmLocation::parent())), None);
    assert!(registry.events().is_empty());
}

#[test]
fn usd_coin_scenario() {
    let mut registry = Pallet::<Runtime>::new();
    let metadata = AssetMetadata {
        decimals: 6,
        name: "USD Coin".as_bytes().to_vec(),
        symbol: "USDC".as_bytes().to_vec(),
        existential_deposit: 1,
        location: Some(versioned(XcmLocation::parent())),
        additional: vec![],
    };
    assert_eq!(registry.register_asset(true, metadata.clone(), Some(7)), Ok(()));
    assert_eq!(
        registry.fetch_metadata_by_location(&canonical(XcmLocation::parent())),
        Some(metadata.clone())
    );
    assert_eq!(
        registry.update_asset(true, 7, Some(8), None, None, None, None, None),
        Ok(())
    );
    let expected = AssetMetadata {
        decimals: 8,
        name: "USD Coin".as_bytes().to_vec(),
        symbol: "USDC".as_bytes().to_vec(),
        existential_deposit: 1,
        location: Some(versioned(XcmLocation::parent())),
        additional: vec![],
    };
    assert_eq!(registry.metadata(7), Some(expected.clone()));
    assert_eq!(registry.location_to_asset_id(&canonical(XcmLocation::parent())), Some(7));
    assert_eq!(
        registry.fetch_metadata_by_location(&canonical(XcmLocation::parent())),
        Some(expected.clone())
    );
    assert_eq!(registry.multilocation(&7), Ok(Some(canonical(XcmLocation::parent()))));
    assert_eq!(
        registry.events(),
        &vec![
            Event::RegisteredAsset { asset_id: 7, metadata },
            Event::UpdatedAsset { asset_id: 7, metadata: expected },
        ]
    );
}

#[test]
fn take_events_hands_the_log_over() {
    let mut registry = Pallet::<Runtime>::new();
    let metadata = usdc(Some(versioned(XcmLocation::parent())));
    assert_eq!(registry.register_asset(true, metadata.clone(), Some(7)), Ok(()));
    assert_eq!(
        registry.take_events(),
        vec![Event::RegisteredAsset { asset_id: 7, metadata: metadata.clone() }]
    );
    assert!(registry.events().is_empty());
    assert_eq!(registry.metadata(7), Some(metadata));
    assert_eq!(registry.location_to_asset_id(&canonical(XcmLocation::parent())), Some(7));
    assert_eq!(registry.take_events(), vec![]);
}
