//! A registry of content-provenance records.
//!
//! Each record binds a creator identity to an externally stored content
//! object, named by a content identifier, together with descriptive
//! metadata, a timestamp, and an active/revoked status. Records are keyed
//! by an address derived deterministically from a namespace tag, the
//! creator identity, and key material for the content identifier, so that
//! re-registering the same content by the same creator is detected as a
//! duplicate rather than overwriting the existing record.

pub mod address;
pub mod errors;
pub mod events;
pub mod hashing;
pub mod laws;
pub mod model;
pub mod record;
pub mod registry;
