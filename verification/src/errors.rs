//! Error kinds reported by the validator and by the layout decoders.

use vstd::prelude::*;

verus! {

/// The two record fields that carry an integrity hash, named so that a
/// hash-length violation can report which field it found wrong.
#[derive(Clone, Copy, Debug, PartialEq, Eq, Structural)]
pub enum HashField {
    MediaHash,
    ReferenceHash,
}

/// A structural invariant of a metadata record that validation found violated.
#[derive(Clone, Copy, Debug, PartialEq, Eq, Structural)]
pub enum ValidationError {
    /// The contract metadata's `spec` tag is not the fixed version constant.
    SpecVersionMismatch,
    /// `reference` and `reference_hash` are not jointly present or jointly absent.
    UnpairedReference,
    /// `media` and `media_hash` are not jointly present or jointly absent.
    UnpairedMedia,
    /// A present hash value is not exactly the required byte length.
    InvalidHashLength { field: HashField, expected: usize, actual: usize },
}

/// Failure to decode persisted bytes under the expected schema layout.
#[derive(Clone, Copy, Debug, PartialEq, Eq, Structural)]
pub enum DecodeError {
    LayoutDecodeFailure,
}

} // verus!
