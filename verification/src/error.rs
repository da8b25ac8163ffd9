//! The ways in which a registry operation is refused.

use vstd::prelude::*;

verus! {

/// The registry's own errors.
#[derive(Debug, Clone, Copy, PartialEq, Eq)]
pub enum Error {
    /// Asset was not found.
    AssetNotFound,
    /// The versioned location has no canonical form.
    BadVersion,
    /// The asset id is invalid. The registry never raises this itself; it is
    /// for asset processors that refuse an id.
    InvalidAssetId,
    /// Another asset was already registered with this location.
    ConflictingLocation,
    /// Another asset was already registered with this asset id.
    ConflictingAssetId,
}

/// What a dispatched operation fails with.
#[derive(Debug, Clone, Copy, PartialEq, Eq)]
pub enum DispatchError {
    /// The caller is not the authority that may change the registry.
    BadOrigin,
    /// One of the registry's own errors.
    Module(Error),
    /// A failure that an asset processor reports in its own words.
    Other(&'static str),
}

} // verus!
