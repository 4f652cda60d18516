//! The mathematical model of the registry: ghost mirrors of the records,
//! entries, and notifications, the field bounds, and the well-formedness
//! predicate that every registry state satisfies.

use vstd::prelude::*;
use vstd::utf8::encode_utf8;

verus! {

/// Byte length of the creator identity.
pub const CREATOR_BYTES: usize = 32;

/// Largest allowed byte length of a content identifier.
pub const MAX_CONTENT_CID_BYTES: usize = 100;

/// Largest allowed byte length of a metadata identifier.
pub const MAX_METADATA_CID_BYTES: usize = 100;

/// Largest allowed byte length of a content type.
pub const MAX_CONTENT_TYPE_BYTES: usize = 100;

/// Largest allowed byte length of a title.
pub const MAX_TITLE_BYTES: usize = 50;

/// Largest allowed byte length of a description.
pub const MAX_DESCRIPTION_BYTES: usize = 100;

/// The abstract value of one attestation record.
#[verifier::ext_equal]
pub ghost struct RecordModel {
    pub creator: Seq<u8>,
    pub content_cid: Seq<char>,
    pub metadata_cid: Seq<char>,
    pub content_type: Seq<char>,
    pub title: Seq<char>,
    pub description: Seq<char>,
    pub timestamp: i64,
    pub active: bool,
}

/// The abstract value of one stored entry: a record together with the
/// address it is stored under.
#[verifier::ext_equal]
pub ghost struct EntryModel {
    pub address: Seq<u8>,
    pub record: RecordModel,
}

/// The abstract value of one emitted notification.
#[verifier::ext_equal]
pub ghost enum EventModel {
    Registered { creator: Seq<u8>, content_cid: Seq<char>, timestamp: i64 },
    Updated { address: Seq<u8>, metadata_cid: Seq<char>, timestamp: i64 },
    Revoked { address: Seq<u8>, timestamp: i64 },
}

/// The abstract value of the whole registry: the stored entries and the
/// append-only notification log.
#[verifier::ext_equal]
pub ghost struct RegistryModel {
    pub entries: Seq<EntryModel>,
    pub events: Seq<EventModel>,
}

/// The UTF-8 byte length of a string value.
pub open spec fn byte_len(s: Seq<char>) -> nat {
    encode_utf8(s).len()
}

/// Whether every field of a record lies within its declared bound and the
/// creator identity has its fixed length.
pub open spec fn record_wf(r: RecordModel) -> bool {
    &&& r.creator.len() == CREATOR_BYTES
    &&& byte_len(r.content_cid) <= MAX_CONTENT_CID_BYTES
    &&& byte_len(r.metadata_cid) <= MAX_METADATA_CID_BYTES
    &&& byte_len(r.content_type) <= MAX_CONTENT_TYPE_BYTES
    &&& byte_len(r.title) <= MAX_TITLE_BYTES
    &&& byte_len(r.description) <= MAX_DESCRIPTION_BYTES
}

/// Whether some entry is stored under the given address.
pub open spec fn address_occupied(entries: Seq<EntryModel>, address: Seq<u8>) -> bool {
    exists|i: int| 0 <= i < entries.len() && entries[i].address == address
}

/// The index of the entry stored under the given address; meaningful only
/// when the address is occupied in a well-formed registry, where it is
/// unique.
pub open spec fn entry_index_of(entries: Seq<EntryModel>, address: Seq<u8>) -> int {
    choose|i: int| 0 <= i < entries.len() && entries[i].address == address
}

/// Well-formedness of a registry state: a given address holds at most one
/// record, and every stored record respects the field bounds.
pub open spec fn model_wf(m: RegistryModel) -> bool {
    &&& forall|i: int, j: int|
        0 <= i < m.entries.len() && 0 <= j < m.entries.len() && i != j
            ==> m.entries[i].address != m.entries[j].address
    &&& forall|i: int| 0 <= i < m.entries.len() ==> record_wf(#[trigger] m.entries[i].record)
}

/// In a well-formed registry, an entry that carries an address is the one
/// entry that `entry_index_of` names for that address.
pub proof fn lemma_entry_index_unique(entries: Seq<EntryModel>, address: Seq<u8>, i: int)
    requires
        forall|p: int, q: int|
            0 <= p < entries.len() && 0 <= q < entries.len() && p != q
                ==> entries[p].address != entries[q].address,
        0 <= i < entries.len(),
        entries[i].address == address,
    ensures
        entry_index_of(entries, address) == i,
        address_occupied(entries, address),
{
    assert(address_occupied(entries, address));
    let j = entry_index_of(entries, address);
    assert(0 <= j < entries.len() && entries[j].address == address);
}

} // verus!
