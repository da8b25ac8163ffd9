//! Locations of assets, in the two wire forms the registry handles.
//!
//! A location reaches the registry in a versioned encoding. It is indexed
//! under its canonical form, the encoding of the same location in the one
//! version that the registry keys by. Decoding and conversion between
//! versions are the XCM library's work.

use parity_scale_codec::{DecodeAll, Encode};
use vstd::prelude::*;

verus! {

/// A location in its versioned encoding: a version tag followed by the
/// location as that version of XCM writes it.
#[derive(Debug, PartialEq, Eq)]
pub struct VersionedMultiLocation {
    pub encoded: Vec<u8>,
}

/// A location in canonical form: the encoding of a version 2 location. The
/// location index is keyed by this form.
#[derive(Debug, PartialEq, Eq)]
pub struct MultiLocation {
    pub encoded: Vec<u8>,
}

impl View for VersionedMultiLocation {
    type V = Seq<u8>;

    open spec fn view(&self) -> Seq<u8> {
        self.encoded@
    }
}

impl View for MultiLocation {
    type V = Seq<u8>;

    open spec fn view(&self) -> Seq<u8> {
        self.encoded@
    }
}

/// The canonical form of a versioned encoding, as the XCM library gives it:
/// `None` where the bytes are no versioned location or name a location that
/// version 2 cannot express.
pub uninterp spec fn canonical_location(versioned: Seq<u8>) -> Option<Seq<u8>>;

/// The view of optional bytes.
pub open spec fn bytes_view(bytes: Option<Vec<u8>>) -> Option<Seq<u8>> {
    match bytes {
        Some(b) => Some(b@),
        None => None,
    }
}

/// The view of an optional canonical location.
pub open spec fn canonical_view(location: Option<MultiLocation>) -> Option<Seq<u8>> {
    match location {
        Some(l) => Some(l@),
        None => None,
    }
}

/// The view of an optional versioned location.
pub open spec fn versioned_view(location: Option<VersionedMultiLocation>) -> Option<Seq<u8>> {
    match location {
        Some(l) => Some(l@),
        None => None,
    }
}

/// Decodes the bytes with `staging_xcm::VersionedMultiLocation`'s `decode_all`,
/// converts the value with its `TryFrom` into `staging_xcm::v2::MultiLocation`,
/// and encodes that. The contract claims only that the outcome is a function
/// of the bytes; which bytes decode, and to what, is the XCM library's to say.
#[verifier::external_body]
fn decode_canonical(versioned: &Vec<u8>) -> (canonical: Option<Vec<u8>>)
    ensures
        bytes_view(canonical) == canonical_location(versioned@),
{
    let decoded = staging_xcm::VersionedMultiLocation::decode_all(&mut &versioned[..]).ok()?;
    let location: staging_xcm::v2::MultiLocation = decoded.try_into().ok()?;
    Some(location.encode())
}

fn same_bytes(a: &Vec<u8>, b: &Vec<u8>) -> (same: bool)
    ensures
        same == (a@ == b@),
{
    let same = a == b;
    assert(same == (a@ =~= b@));
    same
}

impl VersionedMultiLocation {
    /// Wraps a versioned encoding.
    pub fn new(encoded: Vec<u8>) -> (location: Self)
        ensures
            location@ == encoded@,
    {
        VersionedMultiLocation { encoded }
    }

    /// Whether two versioned locations are the same encoding.
    pub fn same(&self, other: &Self) -> (same: bool)
        ensures
            same == (self@ == other@),
    {
        same_bytes(&self.encoded, &other.encoded)
    }

    /// The canonical form of this location, or `None` where it has none.
    pub fn canonical(&self) -> (canonical: Option<MultiLocation>)
        ensures
            canonical_view(canonical) == canonical_location(self@),
    {
        match decode_canonical(&self.encoded) {
            Some(encoded) => Some(MultiLocation { encoded }),
            None => None,
        }
    }
}

impl Clone for VersionedMultiLocation {
    fn clone(&self) -> (copy: Self)
        ensures
            copy@ == self@,
    {
        VersionedMultiLocation { encoded: self.encoded.clone() }
    }
}

impl MultiLocation {
    /// Wraps a canonical encoding.
    pub fn new(encoded: Vec<u8>) -> (location: Self)
        ensures
            location@ == encoded@,
    {
        MultiLocation { encoded }
    }

    /// Whether two canonical locations are the same encoding.
    pub fn same(&self, other: &Self) -> (same: bool)
        ensures
            same == (self@ == other@),
    {
        same_bytes(&self.encoded, &other.encoded)
    }
}

impl Clone for MultiLocation {
    fn clone(&self) -> (copy: Self)
        ensures
            copy@ == self@,
    {
        MultiLocation { encoded: self.encoded.clone() }
    }
}

} // verus!
