use asset_registry::{AssetMetadata, Error, LocationIndex, MetadataStore, MultiLocation};

fn record(decimals: u32) -> AssetMetadata {
    AssetMetadata {
        decimals,
        name: vec![b'n'],
        symbol: vec![b's'],
        existential_deposit: 2,
        location: None,
        additional: vec![],
    }
}

fn key(byte: u8) -> MultiLocation {
    MultiLocation::new(vec![byte, 0])
}

#[test]
fn metadata_store_insert_if_absent() {
    let mut store = MetadataStore::new();
    assert_eq!(store.get(1), None);
    assert_eq!(store.insert_if_absent(1, record(6)), Ok(()));
    assert_eq!(store.get(1), Some(&record(6)));
    assert_eq!(store.insert_if_absent(1, record(8)), Err(Error::ConflictingAssetId));
    assert_eq!(store.get(1), Some(&record(6)));
    assert_eq!(store.insert_if_absent(2, record(8)), Ok(()));
    assert_eq!(store.get(2), Some(&record(8)));
}

#[test]
fn metadata_store_mutate_existing() {
    let mut store = MetadataStore::new();
    assert_eq!(store.mutate_existing(1, record(6)), Err(Error::AssetNotFound));
    assert_eq!(store.get(1), None);
    assert_eq!(store.insert_if_absent(1, record(6)), Ok(()));
    assert_eq!(store.mutate_existing(1, record(8)), Ok(()));
    assert_eq!(store.get(1), Some(&record(8)));
}

#[test]
fn location_index_insert_if_absent() {
    let mut index = LocationIndex::new();
    assert_eq!(index.lookup(&key(1)), None);
    assert_eq!(index.insert_if_absent(key(1), 10), Ok(()));
    assert_eq!(index.insert_if_absent(key(2), 20), Ok(()));
    assert_eq!(index.lookup(&key(1)), Some(10));
    assert_eq!(index.lookup(&key(2)), Some(20));
    assert_eq!(index.insert_if_absent(key(1), 30), Err(Error::ConflictingLocation));
    assert_eq!(index.lookup(&key(1)), Some(10));
    assert_eq!(index.insert_if_absent(key(1), 10), Ok(()));
    assert_eq!(index.lookup(&key(1)), Some(10));
}

#[test]
fn location_index_remove() {
    let mut index = LocationIndex::new();
    index.remove(&key(1));
    assert_eq!(index.insert_if_absent(key(1), 10), Ok(()));
    assert_eq!(index.insert_if_absent(key(2), 20), Ok(()));
    assert_eq!(index.insert_if_absent(key(3), 30), Ok(()));
    index.remove(&key(2));
    assert_eq!(index.lookup(&key(1)), Some(10));
    assert_eq!(index.lookup(&key(2)), None);
    assert_eq!(index.lookup(&key(3)), Some(30));
    index.remove(&key(2));
    assert_eq!(index.lookup(&key(3)), Some(30));
    assert_eq!(index.insert_if_absent(key(2), 40), Ok(()));
    assert_eq!(index.lookup(&key(2)), Some(40));
}

#[test]
fn location_index_relocate_moves_the_entry() {
    let mut index = LocationIndex::new();
    assert_eq!(index.insert_if_absent(key(1), 10), Ok(()));
    assert_eq!(index.relocate(10, Some(&key(1)), Some(key(2))), Ok(()));
    assert_eq!(index.lookup(&key(1)), None);
    assert_eq!(index.lookup(&key(2)), Some(10));
}

#[test]
fn location_index_relocate_to_a_held_location_changes_nothing() {
    let mut index = LocationIndex::new();
    assert_eq!(index.insert_if_absent(key(1), 10), Ok(()));
    assert_eq!(index.insert_if_absent(key(2), 20), Ok(()));
    assert_eq!(
        index.relocate(10, Some(&key(1)), Some(key(2))),
        Err(Error::ConflictingLocation)
    );
    assert_eq!(index.lookup(&key(1)), Some(10));
    assert_eq!(index.lookup(&key(2)), Some(20));
}

#[test]
fn location_index_relocate_to_the_released_location_keeps_it() {
    let mut index = LocationIndex::new();
    assert_eq!(index.insert_if_absent(key(1), 10), Ok(()));
    assert_eq!(index.relocate(10, Some(&key(1)), Some(key(1))), Ok(()));
    assert_eq!(index.lookup(&key(1)), Some(10));
    assert_eq!(index.relocate(20, Some(&key(1)), Some(key(1))), Ok(()));
    assert_eq!(index.lookup(&key(1)), Some(20));
}

#[test]
fn location_index_relocate_without_locations() {
    let mut index = LocationIndex::new();
    assert_eq!(index.relocate(10, None, Some(key(1))), Ok(()));
    assert_eq!(index.lookup(&key(1)), Some(10));
    assert_eq!(index.relocate(10, None, None), Ok(()));
    assert_eq!(index.lookup(&key(1)), Some(10));
    assert_eq!(index.relocate(10, Some(&key(1)), None), Ok(()));
    assert_eq!(index.lookup(&key(1)), None);
    assert_eq!(index.relocate(10, Some(&key(3)), None), Ok(()));
}
