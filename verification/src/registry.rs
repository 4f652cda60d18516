//! The record store: creation, partial update, and revocation of
//! attestation records, keyed by derived addresses, with an append-only
//! notification log.

use vstd::prelude::*;
use crate::address::{
    derive_address, hash_commitment_ok, spec_derive_address, spec_key_material, verify_commitment,
};
use crate::errors::ErrorCode;
use crate::events::{
    ContentRegisteredEvent, ContentRevokedEvent, ContentUpdatedEvent, RegistryEvent,
};
use crate::hashing::{bytes_eq, clone_bytes};
use crate::model::{
    address_occupied, byte_len, entry_index_of, lemma_entry_index_unique, model_wf, record_wf,
    EntryModel, EventModel, RecordModel, RegistryModel, CREATOR_BYTES, MAX_CONTENT_CID_BYTES,
    MAX_CONTENT_TYPE_BYTES, MAX_DESCRIPTION_BYTES, MAX_METADATA_CID_BYTES, MAX_TITLE_BYTES,
};
use crate::record::ContentAttestation;
use vstd::pervasive::VecAdditionalExecFns;

verus! {

/// One stored entry: a record together with the address it lives under.
pub struct RegistryEntry {
    pub address: Vec<u8>,
    pub record: ContentAttestation,
}

impl View for RegistryEntry {
    type V = EntryModel;

    open spec fn view(&self) -> EntryModel {
        EntryModel { address: self.address@, record: self.record@ }
    }
}

/// The registry: every stored entry and every notification emitted so far.
pub struct Registry {
    pub entries: Vec<RegistryEntry>,
    pub events: Vec<RegistryEvent>,
}

impl View for Registry {
    type V = RegistryModel;

    open spec fn view(&self) -> RegistryModel {
        RegistryModel {
            entries: self.entries@.map_values(|e: RegistryEntry| e@),
            events: self.events@.map_values(|e: RegistryEvent| e@),
        }
    }
}

/// The view of an optional replacement string.
pub open spec fn opt_view(s: Option<String>) -> Option<Seq<char>> {
    match s {
        Option::Some(v) => Option::Some(v@),
        Option::None => Option::None,
    }
}

/// The view of an optional claimed digest.
pub open spec fn digest_view(d: Option<Vec<u8>>) -> Option<Seq<u8>> {
    match d {
        Option::Some(v) => Option::Some(v@),
        Option::None => Option::None,
    }
}

/// The view of a registration result.
pub open spec fn register_result_view(r: Result<Vec<u8>, ErrorCode>) -> Result<Seq<u8>, ErrorCode> {
    match r {
        Result::Ok(v) => Result::Ok(v@),
        Result::Err(e) => Result::Err(e),
    }
}

/// Whether every field supplied to a registration lies within its bound.
pub open spec fn register_fields_ok(
    content_cid: Seq<char>,
    metadata_cid: Seq<char>,
    content_type: Seq<char>,
    title: Seq<char>,
    description: Seq<char>,
) -> bool {
    &&& byte_len(content_cid) <= MAX_CONTENT_CID_BYTES
    &&& byte_len(metadata_cid) <= MAX_METADATA_CID_BYTES
    &&& byte_len(content_type) <= MAX_CONTENT_TYPE_BYTES
    &&& byte_len(title) <= MAX_TITLE_BYTES
    &&& byte_len(description) <= MAX_DESCRIPTION_BYTES
}

/// What a registration does: the registry state after the call and the
/// result handed back, as a function of the state before and the inputs.
pub open spec fn spec_register(
    m: RegistryModel,
    creator: Seq<u8>,
    content_cid: Seq<char>,
    claimed_digest: Option<Seq<u8>>,
    metadata_cid: Seq<char>,
    content_type: Seq<char>,
    title: Seq<char>,
    description: Seq<char>,
    now: i64,
) -> (RegistryModel, Result<Seq<u8>, ErrorCode>) {
    if !hash_commitment_ok(content_cid, claimed_digest) {
        (m, Result::Err(ErrorCode::InvalidHash))
    } else if !register_fields_ok(content_cid, metadata_cid, content_type, title, description) {
        (m, Result::Err(ErrorCode::FieldTooLong))
    } else {
        let address = spec_derive_address(creator, spec_key_material(content_cid, claimed_digest));
        if address_occupied(m.entries, address) {
            (m, Result::Err(ErrorCode::DuplicateAttestation))
        } else {
            let record = RecordModel {
                creator,
                content_cid,
                metadata_cid,
                content_type,
                title,
                description,
                timestamp: now,
                active: true,
            };
            let post = RegistryModel {
                entries: m.entries.push(EntryModel { address, record }),
                events: m.events.push(EventModel::Registered {
                    creator,
                    content_cid,
                    timestamp: now,
                }),
            };
            (post, Result::Ok(address))
        }
    }
}

/// Whether every replacement string supplied to an update lies within the
/// bound of the field it replaces.
pub open spec fn update_fields_ok(
    new_metadata_cid: Option<Seq<char>>,
    new_title: Option<Seq<char>>,
    new_description: Option<Seq<char>>,
) -> bool {
    &&& (new_metadata_cid matches Option::Some(s) ==> byte_len(s) <= MAX_METADATA_CID_BYTES)
    &&& (new_title matches Option::Some(s) ==> byte_len(s) <= MAX_TITLE_BYTES)
    &&& (new_description matches Option::Some(s) ==> byte_len(s) <= MAX_DESCRIPTION_BYTES)
}

/// The record after an update: each supplied field replaces the stored one,
/// an absent field is left unchanged, the timestamp is refreshed, and the
/// creator, content identifier, content type, and lifecycle state are kept.
pub open spec fn updated_record(
    r: RecordModel,
    new_metadata_cid: Option<Seq<char>>,
    new_title: Option<Seq<char>>,
    new_description: Option<Seq<char>>,
    now: i64,
) -> RecordModel {
    RecordModel {
        creator: r.creator,
        content_cid: r.content_cid,
        metadata_cid: match new_metadata_cid {
            Option::Some(s) => s,
            Option::None => r.metadata_cid,
        },
        content_type: r.content_type,
        title: match new_title {
            Option::Some(s) => s,
            Option::None => r.title,
        },
        description: match new_description {
            Option::Some(s) => s,
            Option::None => r.description,
        },
        timestamp: now,
        active: r.active,
    }
}

/// What an update does: the registry state after the call and the result
/// handed back. Meaningful when the address is occupied in a well-formed
/// registry; the host environment rejects unknown addresses before the core
/// is invoked.
pub open spec fn spec_update(
    m: RegistryModel,
    actor: Seq<u8>,
    address: Seq<u8>,
    new_metadata_cid: Option<Seq<char>>,
    new_title: Option<Seq<char>>,
    new_description: Option<Seq<char>>,
    now: i64,
) -> (RegistryModel, Result<(), ErrorCode>)
    recommends
        model_wf(m),
        address_occupied(m.entries, address),
{
    let i = entry_index_of(m.entries, address);
    let r0 = m.entries[i].record;
    if actor != r0.creator {
        (m, Result::Err(ErrorCode::UnauthorizedUpdate))
    } else if !update_fields_ok(new_metadata_cid, new_title, new_description) {
        (m, Result::Err(ErrorCode::FieldTooLong))
    } else {
        let r1 = updated_record(r0, new_metadata_cid, new_title, new_description, now);
        let post = RegistryModel {
            entries: m.entries.update(i, EntryModel { address, record: r1 }),
            events: m.events.push(EventModel::Updated {
                address,
                metadata_cid: r1.metadata_cid,
                timestamp: now,
            }),
        };
        (post, Result::Ok(()))
    }
}

/// What a revocation does: the record at the address is marked revoked and
/// re-stamped, and one revocation notification is appended. Revoking an
/// already revoked record succeeds again: it re-stamps the timestamp and
/// re-emits the notification.
pub open spec fn spec_revoke(
    m: RegistryModel,
    actor: Seq<u8>,
    address: Seq<u8>,
    now: i64,
) -> (RegistryModel, Result<(), ErrorCode>)
    recommends
        model_wf(m),
        address_occupied(m.entries, address),
{
    let i = entry_index_of(m.entries, address);
    let r0 = m.entries[i].record;
    if actor != r0.creator {
        (m, Result::Err(ErrorCode::UnauthorizedRevocation))
    } else {
        let r1 = RecordModel {
            creator: r0.creator,
            content_cid: r0.content_cid,
            metadata_cid: r0.metadata_cid,
            content_type: r0.content_type,
            title: r0.title,
            description: r0.description,
            timestamp: now,
            active: false,
        };
        let post = RegistryModel {
            entries: m.entries.update(i, EntryModel { address, record: r1 }),
            events: m.events.push(EventModel::Revoked { address, timestamp: now }),
        };
        (post, Result::Ok(()))
    }
}

impl Registry {
    /// Well-formedness: addresses are unique and every stored record is
    /// within bounds.
    pub open spec fn wf(&self) -> bool {
        model_wf(self@)
    }

    /// An empty registry.
    pub fn new() -> (r: Registry)
        ensures
            r@ == (RegistryModel { entries: Seq::<EntryModel>::empty(), events: Seq::<EventModel>::empty() }),
            r.wf(),
    {
        let r = Registry { entries: Vec::new(), events: Vec::new() };
        proof {
            assert(r@.entries =~= Seq::<EntryModel>::empty());
            assert(r@.events =~= Seq::<EventModel>::empty());
            assert(r@ =~= (RegistryModel { entries: Seq::<EntryModel>::empty(), events: Seq::<EventModel>::empty() }));
        }
        r
    }

    /// The index of the entry stored under `address`, if any.
    pub fn find_attestation(&self, address: &[u8]) -> (r: Option<usize>)
        ensures
            match r {
                Option::Some(i) => 0 <= i < self@.entries.len()
                    && self@.entries[i as int].address == address@,
                Option::None => !address_occupied(self@.entries, address@),
            },
    {
        let n = self.entries.len();
        let mut i: usize = 0;
        while i < n
            invariant
                n == self.entries@.len(),
                i <= n,
                self@.entries.len() == n,
                forall|j: int| 0 <= j < i ==> self@.entries[j].address != address@,
            decreases n - i,
        {
            if bytes_eq(self.entries[i].address.as_slice(), address) {
                return Some(i);
            }
            i = i + 1;
        }
        None
    }

    /// Registers a new record.
    ///
    /// A supplied claimed digest is checked against the hash of the content
    /// identifier and then serves as key material for the address; when none
    /// is supplied the identifier's own bytes do. The operation rejects,
    /// leaving the registry unchanged, a mismatched digest, an over-long
    /// field, and an occupied address, in that order of checks; on success
    /// it stores the new record as active, stamped with `now`, appends one
    /// registration notification, and returns the derived address.
    pub fn register_content(
        &mut self,
        creator: Vec<u8>,
        content_cid: String,
        claimed_digest: Option<Vec<u8>>,
        metadata_cid: String,
        content_type: String,
        title: String,
        description: String,
        now: i64,
    ) -> (result: Result<Vec<u8>, ErrorCode>)
        requires
            old(self).wf(),
            creator@.len() == CREATOR_BYTES,
        ensures
            final(self).wf(),
            final(self)@ == spec_register(
                old(self)@,
                creator@,
                content_cid@,
                digest_view(claimed_digest),
                metadata_cid@,
                content_type@,
                title@,
                description@,
                now,
            ).0,
            register_result_view(result) == spec_register(
                old(self)@,
                creator@,
                content_cid@,
                digest_view(claimed_digest),
                metadata_cid@,
                content_type@,
                title@,
                description@,
                now,
            ).1,
    {
        // Step 1: hash-commitment gate, for the digest-keyed variant.
        if let Some(d) = &claimed_digest {
            if !verify_commitment(content_cid.as_str(), d.as_slice()) {
                return Err(ErrorCode::InvalidHash);
            }
        }
        // Step 2: field bounds, before anything is committed.
        if content_cid.as_str().as_bytes().len() > MAX_CONTENT_CID_BYTES
            || metadata_cid.as_str().as_bytes().len() > MAX_METADATA_CID_BYTES
            || content_type.as_str().as_bytes().len() > MAX_CONTENT_TYPE_BYTES
            || title.as_str().as_bytes().len() > MAX_TITLE_BYTES
            || description.as_str().as_bytes().len() > MAX_DESCRIPTION_BYTES
        {
            return Err(ErrorCode::FieldTooLong);
        }
        // Step 3: derive the address from the chosen key material.
        let address = match &claimed_digest {
            Some(d) => derive_address(creator.as_slice(), d.as_slice()),
            None => derive_address(creator.as_slice(), content_cid.as_str().as_bytes()),
        };
        // Step 4: no overwrite of an occupied address.
        if let Some(_i) = self.find_attestation(address.as_slice()) {
            return Err(ErrorCode::DuplicateAttestation);
        }
        // Step 5: commit the record and exactly one notification.
        let ghost m0 = old(self)@;
        let ghost spec_address = address@;
        let event = ContentRegisteredEvent {
            creator: clone_bytes(&creator),
            content_cid: content_cid.clone(),
            timestamp: now,
        };
        let record = ContentAttestation {
            creator,
            content_cid,
            metadata_cid,
            content_type,
            title,
            description,
            timestamp: now,
            active: true,
        };
        let entry = RegistryEntry { address: clone_bytes(&address), record };
        self.entries.push(entry);
        self.events.push(RegistryEvent::Registered(event));
        proof {
            let post = spec_register(
                m0,
                creator@,
                content_cid@,
                digest_view(claimed_digest),
                metadata_cid@,
                content_type@,
                title@,
                description@,
                now,
            ).0;
            assert(self@.entries =~= post.entries);
            assert(self@.events =~= post.events);
            assert(self@ =~= post);
            assert forall|i: int, j: int|
                0 <= i < self@.entries.len() && 0 <= j < self@.entries.len() && i != j
                implies self@.entries[i].address != self@.entries[j].address by {
                assert(!address_occupied(m0.entries, spec_address));
            }
        }
        Ok(address)
    }

    /// Updates the record stored under `address`.
    ///
    /// Only the record's creator may update it. Each supplied field replaces
    /// the stored one; an absent field is left unchanged. A replacement that
    /// exceeds its field's bound is rejected, so a record never outgrows the
    /// capacity its bounds declare. The timestamp is refreshed even when all
    /// three fields are absent, and one update notification is appended. A
    /// revoked record may still be updated; it stays revoked.
    pub fn update_content(
        &mut self,
        actor: &[u8],
        address: &[u8],
        new_metadata_cid: Option<String>,
        new_title: Option<String>,
        new_description: Option<String>,
        now: i64,
    ) -> (result: Result<(), ErrorCode>)
        requires
            old(self).wf(),
            address_occupied(old(self)@.entries, address@),
        ensures
            final(self).wf(),
            final(self)@ == spec_update(
                old(self)@,
                actor@,
                address@,
                opt_view(new_metadata_cid),
                opt_view(new_title),
                opt_view(new_description),
                now,
            ).0,
            result == spec_update(
                old(self)@,
                actor@,
                address@,
                opt_view(new_metadata_cid),
                opt_view(new_title),
                opt_view(new_description),
                now,
            ).1,
    {
        let ghost m0 = old(self)@;
        let i: usize;
        match self.find_attestation(address) {
            Some(idx) => {
                i = idx;
            }
            None => {
                proof {
                    assert(false);
                }
                return Err(ErrorCode::UnauthorizedUpdate);
            }
        }
        proof {
            lemma_entry_index_unique(m0.entries, address@, i as int);
        }
        // Authorization: only the record's creator may mutate it.
        if !bytes_eq(actor, self.entries[i].record.creator.as_slice()) {
            return Err(ErrorCode::UnauthorizedUpdate);
        }
        // Field bounds for the supplied replacements, before any mutation.
        if let Some(s) = &new_metadata_cid {
            if s.as_str().as_bytes().len() > MAX_METADATA_CID_BYTES {
                return Err(ErrorCode::FieldTooLong);
            }
        }
        if let Some(s) = &new_title {
            if s.as_str().as_bytes().len() > MAX_TITLE_BYTES {
                return Err(ErrorCode::FieldTooLong);
            }
        }
        if let Some(s) = &new_description {
            if s.as_str().as_bytes().len() > MAX_DESCRIPTION_BYTES {
                return Err(ErrorCode::FieldTooLong);
            }
        }
        // Commit: replace the stored record and append one notification.
        let e = &self.entries[i];
        let metadata_cid = match new_metadata_cid {
            Some(s) => s,
            None => e.record.metadata_cid.clone(),
        };
        let title = match new_title {
            Some(s) => s,
            None => e.record.title.clone(),
        };
        let description = match new_description {
            Some(s) => s,
            None => e.record.description.clone(),
        };
        let creator = clone_bytes(&e.record.creator);
        let content_cid = e.record.content_cid.clone();
        let content_type = e.record.content_type.clone();
        let active = e.record.active;
        let entry_address = clone_bytes(&e.address);
        let event_address = clone_bytes(&e.address);
        let event_metadata = metadata_cid.clone();
        let record = ContentAttestation {
            creator,
            content_cid,
            metadata_cid,
            content_type,
            title,
            description,
            timestamp: now,
            active,
        };
        self.entries.set(i, RegistryEntry { address: entry_address, record });
        self.events.push(RegistryEvent::Updated(ContentUpdatedEvent {
            address: event_address,
            metadata_cid: event_metadata,
            timestamp: now,
        }));
        proof {
            let post = spec_update(
                m0,
                actor@,
                address@,
                opt_view(new_metadata_cid),
                opt_view(new_title),
                opt_view(new_description),
                now,
            ).0;
            assert(self@.entries =~= post.entries);
            assert(self@.events =~= post.events);
            assert(self@ =~= post);
            assert forall|p: int, q: int|
                0 <= p < self@.entries.len() && 0 <= q < self@.entries.len() && p != q
                implies self@.entries[p].address != self@.entries[q].address by {
                assert(m0.entries[p].address == self@.entries[p].address);
                assert(m0.entries[q].address == self@.entries[q].address);
            }
            assert forall|k: int| 0 <= k < self@.entries.len()
                implies record_wf(#[trigger] self@.entries[k].record) by {
                if k != i as int {
                    assert(record_wf(m0.entries[k].record));
                }
            }
        }
        Ok(())
    }

    /// Revokes the record stored under `address`.
    ///
    /// Only the record's creator may revoke it. The record is marked
    /// inactive, its timestamp is refreshed, and one revocation notification
    /// is appended. No un-revoke transition exists; revoking an already
    /// revoked record succeeds again and merely re-stamps and re-notifies.
    pub fn revoke_content(&mut self, actor: &[u8], address: &[u8], now: i64) -> (result: Result<
        (),
        ErrorCode,
    >)
        requires
            old(self).wf(),
            address_occupied(old(self)@.entries, address@),
        ensures
            final(self).wf(),
            final(self)@ == spec_revoke(old(self)@, actor@, address@, now).0,
            result == spec_revoke(old(self)@, actor@, address@, now).1,
    {
        let ghost m0 = old(self)@;
        let i: usize;
        match self.find_attestation(address) {
            Some(idx) => {
                i = idx;
            }
            None => {
                proof {
                    assert(false);
                }
                return Err(ErrorCode::UnauthorizedRevocation);
            }
        }
        proof {
            lemma_entry_index_unique(m0.entries, address@, i as int);
        }
        // Authorization: only the record's creator may revoke it.
        if !bytes_eq(actor, self.entries[i].record.creator.as_slice()) {
            return Err(ErrorCode::UnauthorizedRevocation);
        }
        // Commit: mark the record revoked and append one notification.
        let e = &self.entries[i];
        let creator = clone_bytes(&e.record.creator);
        let content_cid = e.record.content_cid.clone();
        let metadata_cid = e.record.metadata_cid.clone();
        let content_type = e.record.content_type.clone();
        let title = e.record.title.clone();
        let description = e.record.description.clone();
        let entry_address = clone_bytes(&e.address);
        let event_address = clone_bytes(&e.address);
        let record = ContentAttestation {
            creator,
            content_cid,
            metadata_cid,
            content_type,
            title,
            description,
            timestamp: now,
            active: false,
        };
        self.entries.set(i, RegistryEntry { address: entry_address, record });
        self.events.push(RegistryEvent::Revoked(ContentRevokedEvent {
            address: event_address,
            timestamp: now,
        }));
        proof {
            let post = spec_revoke(m0, actor@, address@, now).0;
            assert(self@.entries =~= post.entries);
            assert(self@.events =~= post.events);
            assert(self@ =~= post);
            assert forall|p: int, q: int|
                0 <= p < self@.entries.len() && 0 <= q < self@.entries.len() && p != q
                implies self@.entries[p].address != self@.entries[q].address by {
                assert(m0.entries[p].address == self@.entries[p].address);
                assert(m0.entries[q].address == self@.entries[q].address);
            }
            assert forall|k: int| 0 <= k < self@.entries.len()
                implies record_wf(#[trigger] self@.entries[k].record) by {
                if k != i as int {
                    assert(record_wf(m0.entries[k].record));
                }
            }
        }
        Ok(())
    }
}

} // verus!
