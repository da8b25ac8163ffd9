//! The record that the registry keeps for each asset.

use crate::location::{versioned_view, VersionedMultiLocation};
use vstd::prelude::*;

verus! {

/// The key of an asset's record.
pub type AssetId = u32;

/// An amount of an asset.
pub type Balance = u128;

/// Extension data that a deployment attaches to a record. The registry stores
/// it and hands it back, and never looks inside.
pub type CustomMetadata = Vec<u8>;

/// Data describing the asset properties.
#[derive(Debug, PartialEq, Eq)]
pub struct AssetMetadata {
    pub decimals: u32,
    pub name: Vec<u8>,
    pub symbol: Vec<u8>,
    pub existential_deposit: Balance,
    pub location: Option<VersionedMultiLocation>,
    pub additional: CustomMetadata,
}

/// An asset's record as a mathematical value.
pub ghost struct AssetMetadataView {
    pub decimals: u32,
    pub name: Seq<u8>,
    pub symbol: Seq<u8>,
    pub existential_deposit: Balance,
    pub location: Option<Seq<u8>>,
    pub additional: Seq<u8>,
}

impl View for AssetMetadata {
    type V = AssetMetadataView;

    open spec fn view(&self) -> AssetMetadataView {
        AssetMetadataView {
            decimals: self.decimals,
            name: self.name@,
            symbol: self.symbol@,
            existential_deposit: self.existential_deposit,
            location: versioned_view(self.location),
            additional: self.additional@,
        }
    }
}

/// The view of an optional record.
pub open spec fn metadata_view(metadata: Option<AssetMetadata>) -> Option<AssetMetadataView> {
    match metadata {
        Some(m) => Some(m@),
        None => None,
    }
}

impl Clone for AssetMetadata {
    fn clone(&self) -> (copy: Self)
        ensures
            copy@ == self@,
    {
        let location = match &self.location {
            Some(l) => Some(l.clone()),
            None => None,
        };
        AssetMetadata {
            decimals: self.decimals,
            name: self.name.clone(),
            symbol: self.symbol.clone(),
            existential_deposit: self.existential_deposit,
            location,
            additional: self.additional.clone(),
        }
    }
}

} // verus!
