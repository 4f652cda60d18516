//! The notifications appended by successful operations, for external
//! indexers to consume.

use vstd::prelude::*;
use crate::model::EventModel;

verus! {

/// Emitted by a successful registration.
pub struct ContentRegisteredEvent {
    pub creator: Vec<u8>,
    pub content_cid: String,
    pub timestamp: i64,
}

/// Emitted by a successful update; carries the metadata identifier the
/// record holds after the update.
pub struct ContentUpdatedEvent {
    pub address: Vec<u8>,
    pub metadata_cid: String,
    pub timestamp: i64,
}

/// Emitted by a successful revocation.
pub struct ContentRevokedEvent {
    pub address: Vec<u8>,
    pub timestamp: i64,
}

/// One entry of the registry's append-only notification log.
pub enum RegistryEvent {
    Registered(ContentRegisteredEvent),
    Updated(ContentUpdatedEvent),
    Revoked(ContentRevokedEvent),
}

impl View for RegistryEvent {
    type V = EventModel;

    open spec fn view(&self) -> EventModel {
        match self {
            RegistryEvent::Registered(e) => EventModel::Registered {
                creator: e.creator@,
                content_cid: e.content_cid@,
                timestamp: e.timestamp,
            },
            RegistryEvent::Updated(e) => EventModel::Updated {
                address: e.address@,
                metadata_cid: e.metadata_cid@,
                timestamp: e.timestamp,
            },
            RegistryEvent::Revoked(e) => EventModel::Revoked {
                address: e.address@,
                timestamp: e.timestamp,
            },
        }
    }
}

} // verus!
