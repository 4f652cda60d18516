//! The attestation record: the sole persisted entity.

use vstd::prelude::*;
use crate::model::RecordModel;

verus! {

/// One content-provenance record. The creator identity, the content
/// identifier, and the content type are set at creation and never change;
/// the metadata identifier, title, and description may be replaced by an
/// update; the timestamp reflects the last accepted operation; `active`
/// starts true and is cleared by a revocation.
pub struct ContentAttestation {
    pub creator: Vec<u8>,
    pub content_cid: String,
    pub metadata_cid: String,
    pub content_type: String,
    pub title: String,
    pub description: String,
    pub timestamp: i64,
    pub active: bool,
}

impl View for ContentAttestation {
    type V = RecordModel;

    open spec fn view(&self) -> RecordModel {
        RecordModel {
            creator: self.creator@,
            content_cid: self.content_cid@,
            metadata_cid: self.metadata_cid@,
            content_type: self.content_type@,
            title: self.title@,
            description: self.description@,
            timestamp: self.timestamp,
            active: self.active,
        }
    }
}

} // verus!
