//! What the registry reports to observers.

use crate::location::VersionedMultiLocation;
use crate::metadata::{AssetId, AssetMetadata, AssetMetadataView};
use vstd::prelude::*;

verus! {

/// A change to the registry that took effect.
#[derive(Debug, PartialEq, Eq)]
pub enum Event {
    RegisteredAsset { asset_id: AssetId, metadata: AssetMetadata },
    UpdatedAsset { asset_id: AssetId, metadata: AssetMetadata },
    /// Declared for observers; no operation of the registry emits it.
    SetLocation { asset_id: AssetId, location: Box<VersionedMultiLocation> },
}

/// An event as a mathematical value.
pub ghost enum EventView {
    RegisteredAsset { asset_id: AssetId, metadata: AssetMetadataView },
    UpdatedAsset { asset_id: AssetId, metadata: AssetMetadataView },
    SetLocation { asset_id: AssetId, location: Seq<u8> },
}

impl View for Event {
    type V = EventView;

    open spec fn view(&self) -> EventView {
        match *self {
            Event::RegisteredAsset { asset_id, metadata } => EventView::RegisteredAsset {
                asset_id,
                metadata: metadata@,
            },
            Event::UpdatedAsset { asset_id, metadata } => EventView::UpdatedAsset {
                asset_id,
                metadata: metadata@,
            },
            Event::SetLocation { asset_id, location } => EventView::SetLocation {
                asset_id,
                location: location@,
            },
        }
    }
}

/// The views of a list of events, in order.
pub open spec fn events_view(events: Seq<Event>) -> Seq<EventView> {
    events.map_values(|e: Event| e@)
}

} // verus!
