//! The hook that a deployment runs around each registration.

use crate::error::{DispatchError, Error};
use crate::metadata::{AssetId, AssetMetadata};
use vstd::prelude::*;

verus! {

/// A filter run upon registration. It settles the id under which the asset
/// is registered, may change or refuse the metadata, and is told once the
/// registry holds the asset.
pub trait AssetProcessor {
    /// Called before the registry is touched, with the id the caller asked
    /// for, if any. Gives the id and metadata to register.
    fn pre_register(id: Option<AssetId>, metadata: AssetMetadata) -> Result<
        (AssetId, AssetMetadata),
        DispatchError,
    >;

    /// Called once the asset is in the registry. An error takes the
    /// registration back. Unless a processor says otherwise, it accepts.
    fn post_register(id: AssetId, metadata: AssetMetadata) -> (told: Result<(), DispatchError>)
        default_ensures
            told == Ok::<(), DispatchError>(()),
    {
        Ok(())
    }
}

/// What a deployment settles about its registry.
pub trait Config {
    /// The filter run upon registration.
    type AssetProcessor: AssetProcessor;
}

/// The processor that changes nothing. It registers under the id the caller
/// asked for and assigns none of its own. As a deployment, it is the one
/// that settles on this processor.
pub struct PassThrough;

impl Config for PassThrough {
    type AssetProcessor = PassThrough;
}

impl AssetProcessor for PassThrough {
    fn pre_register(id: Option<AssetId>, metadata: AssetMetadata) -> (processed: Result<
        (AssetId, AssetMetadata),
        DispatchError,
    >)
        ensures
            processed == match id {
                Some(asset_id) => Ok::<(AssetId, AssetMetadata), DispatchError>(
                    (asset_id, metadata),
                ),
                None => Err::<(AssetId, AssetMetadata), DispatchError>(
                    DispatchError::Module(Error::InvalidAssetId),
                ),
            },
    {
        match id {
            Some(asset_id) => Ok((asset_id, metadata)),
            None => Err(DispatchError::Module(Error::InvalidAssetId)),
        }
    }

    fn post_register(id: AssetId, metadata: AssetMetadata) -> (told: Result<(), DispatchError>)
        ensures
            told == Ok::<(), DispatchError>(()),
    {
        Ok(())
    }
}

} // verus!
