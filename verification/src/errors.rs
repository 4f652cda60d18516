//! The error taxonomy surfaced to callers. Every rejection is detected
//! before any storage mutation, so a failed operation has no effect.

use vstd::prelude::*;

verus! {

/// Why an operation was rejected.
#[derive(Clone, Copy, Debug, PartialEq, Eq, Structural)]
pub enum ErrorCode {
    /// The claimed digest does not equal the hash of the content identifier.
    InvalidHash,
    /// A string field exceeds its declared byte bound.
    FieldTooLong,
    /// A record already exists at the derived address.
    DuplicateAttestation,
    /// An update was attempted by an identity other than the record's creator.
    UnauthorizedUpdate,
    /// A revocation was attempted by an identity other than the record's creator.
    UnauthorizedRevocation,
}

} // verus!
