//! A registry of asset metadata.
//!
//! Every asset id maps to one descriptive record, and every location that a
//! record names maps back to the asset that holds it. Registrations and
//! updates either take effect as a whole or leave the registry untouched.

pub mod error;
pub mod event;
pub mod laws;
pub mod location;
pub mod location_index;
pub mod metadata;
pub mod metadata_store;
pub mod pallet;
pub mod processor;
pub mod state;

pub use error::{DispatchError, Error};
pub use event::Event;
pub use location::{MultiLocation, VersionedMultiLocation};
pub use location_index::LocationIndex;
pub use metadata::{AssetId, AssetMetadata, Balance, CustomMetadata};
pub use metadata_store::MetadataStore;
pub use pallet::Pallet;
pub use processor::{AssetProcessor, Config, PassThrough};
