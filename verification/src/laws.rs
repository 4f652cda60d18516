//! The registry's laws: properties that relate whole operations, proved
//! over the model transitions that the executable operations are specified
//! against.

use vstd::prelude::*;
use vstd::utf8::encode_utf8;
use crate::address::{hash_commitment_ok, spec_derive_address, spec_key_material};
use crate::errors::ErrorCode;
use crate::hashing::sha256_of;
use crate::model::{
    address_occupied, byte_len, entry_index_of, lemma_entry_index_unique, model_wf, record_wf,
    EventModel, RegistryModel, CREATOR_BYTES, MAX_TITLE_BYTES,
};
use crate::registry::{
    register_fields_ok, spec_register, spec_revoke, spec_update, update_fields_ok,
};

verus! {

/// A registration leaves a well-formed registry well-formed.
pub proof fn lemma_register_preserves_wf(
    m: RegistryModel,
    creator: Seq<u8>,
    content_cid: Seq<char>,
    claimed_digest: Option<Seq<u8>>,
    metadata_cid: Seq<char>,
    content_type: Seq<char>,
    title: Seq<char>,
    description: Seq<char>,
    now: i64,
)
    requires
        model_wf(m),
        creator.len() == CREATOR_BYTES,
    ensures
        model_wf(spec_register(
            m, creator, content_cid, claimed_digest, metadata_cid, content_type, title,
            description, now,
        ).0),
{
    let post = spec_register(
        m, creator, content_cid, claimed_digest, metadata_cid, content_type, title, description,
        now,
    ).0;
    if post != m {
        let address = spec_derive_address(creator, spec_key_material(content_cid, claimed_digest));
        assert(!address_occupied(m.entries, address));
        assert forall|i: int, j: int|
            0 <= i < post.entries.len() && 0 <= j < post.entries.len() && i != j
            implies post.entries[i].address != post.entries[j].address by {}
        assert forall|i: int| 0 <= i < post.entries.len()
            implies record_wf(#[trigger] post.entries[i].record) by {}
    }
}

/// An update leaves a well-formed registry well-formed.
pub proof fn lemma_update_preserves_wf(
    m: RegistryModel,
    actor: Seq<u8>,
    address: Seq<u8>,
    new_metadata_cid: Option<Seq<char>>,
    new_title: Option<Seq<char>>,
    new_description: Option<Seq<char>>,
    now: i64,
)
    requires
        model_wf(m),
        address_occupied(m.entries, address),
    ensures
        model_wf(spec_update(
            m, actor, address, new_metadata_cid, new_title, new_description, now,
        ).0),
{
    let post = spec_update(m, actor, address, new_metadata_cid, new_title, new_description, now).0;
    let i = entry_index_of(m.entries, address);
    if post != m {
        assert(0 <= i < m.entries.len() && m.entries[i].address == address);
        assert forall|p: int, q: int|
            0 <= p < post.entries.len() && 0 <= q < post.entries.len() && p != q
            implies post.entries[p].address != post.entries[q].address by {
            assert(post.entries[p].address == m.entries[p].address);
            assert(post.entries[q].address == m.entries[q].address);
        }
        assert forall|k: int| 0 <= k < post.entries.len()
            implies record_wf(#[trigger] post.entries[k].record) by {
            if k != i {
                assert(record_wf(m.entries[k].record));
            } else {
                assert(record_wf(m.entries[i].record));
            }
        }
    }
}

/// A revocation leaves a well-formed registry well-formed.
pub proof fn lemma_revoke_preserves_wf(m: RegistryModel, actor: Seq<u8>, address: Seq<u8>, now: i64)
    requires
        model_wf(m),
        address_occupied(m.entries, address),
    ensures
        model_wf(spec_revoke(m, actor, address, now).0),
{
    let post = spec_revoke(m, actor, address, now).0;
    let i = entry_index_of(m.entries, address);
    if post != m {
        assert(0 <= i < m.entries.len() && m.entries[i].address == address);
        assert forall|p: int, q: int|
            0 <= p < post.entries.len() && 0 <= q < post.entries.len() && p != q
            implies post.entries[p].address != post.entries[q].address by {
            assert(post.entries[p].address == m.entries[p].address);
            assert(post.entries[q].address == m.entries[q].address);
        }
        assert forall|k: int| 0 <= k < post.entries.len()
            implies record_wf(#[trigger] post.entries[k].record) by {
            if k != i {
                assert(record_wf(m.entries[k].record));
            } else {
                assert(record_wf(m.entries[i].record));
            }
        }
    }
}

/// Law: a successful registration followed immediately by a second
/// registration with the same creator and the same content identifier, the
/// key material supplied in the same form and the second call otherwise
/// valid, fails with `DuplicateAttestation` and leaves the registry — the
/// first record included — unchanged.
pub proof fn lemma_duplicate_registration_rejected(
    m0: RegistryModel,
    creator: Seq<u8>,
    content_cid: Seq<char>,
    digest1: Option<Seq<u8>>,
    metadata1: Seq<char>,
    content_type1: Seq<char>,
    title1: Seq<char>,
    description1: Seq<char>,
    now1: i64,
    digest2: Option<Seq<u8>>,
    metadata2: Seq<char>,
    content_type2: Seq<char>,
    title2: Seq<char>,
    description2: Seq<char>,
    now2: i64,
)
    requires
        model_wf(m0),
        spec_register(
            m0, creator, content_cid, digest1, metadata1, content_type1, title1, description1,
            now1,
        ).1 is Ok,
        digest1 is Some <==> digest2 is Some,
        hash_commitment_ok(content_cid, digest2),
        register_fields_ok(content_cid, metadata2, content_type2, title2, description2),
    ensures
        ({
            let m1 = spec_register(
                m0, creator, content_cid, digest1, metadata1, content_type1, title1, description1,
                now1,
            ).0;
            spec_register(
                m1, creator, content_cid, digest2, metadata2, content_type2, title2, description2,
                now2,
            ) == (m1, Result::<Seq<u8>, ErrorCode>::Err(ErrorCode::DuplicateAttestation))
        }),
{
    let m1 = spec_register(
        m0, creator, content_cid, digest1, metadata1, content_type1, title1, description1, now1,
    ).0;
    let key1 = spec_key_material(content_cid, digest1);
    let key2 = spec_key_material(content_cid, digest2);
    assert(hash_commitment_ok(content_cid, digest1));
    assert(key1 == key2);
    let address = spec_derive_address(creator, key1);
    assert(m1.entries[m0.entries.len() as int].address == address);
    assert(address_occupied(m1.entries, address));
}

/// Law: a registration whose claimed digest does not equal the hash of the
/// supplied content identifier fails with `InvalidHash` and commits
/// nothing, so no record is created at the derived address.
pub proof fn lemma_mismatched_digest_rejected(
    m: RegistryModel,
    creator: Seq<u8>,
    content_cid: Seq<char>,
    claimed_digest: Seq<u8>,
    metadata_cid: Seq<char>,
    content_type: Seq<char>,
    title: Seq<char>,
    description: Seq<char>,
    now: i64,
)
    requires
        claimed_digest != sha256_of(encode_utf8(content_cid)),
    ensures
        spec_register(
            m, creator, content_cid, Option::Some(claimed_digest), metadata_cid, content_type,
            title, description, now,
        ) == (m, Result::<Seq<u8>, ErrorCode>::Err(ErrorCode::InvalidHash)),
        !address_occupied(m.entries, spec_derive_address(creator, claimed_digest))
            ==> !address_occupied(
            spec_register(
                m, creator, content_cid, Option::Some(claimed_digest), metadata_cid, content_type,
                title, description, now,
            ).0.entries,
            spec_derive_address(creator, claimed_digest),
        ),
{
}

/// Law: a registration one of whose strings exceeds its bound, the hash
/// commitment itself being in order, fails with `FieldTooLong` and commits
/// nothing.
pub proof fn lemma_overlong_field_rejected(
    m: RegistryModel,
    creator: Seq<u8>,
    content_cid: Seq<char>,
    claimed_digest: Option<Seq<u8>>,
    metadata_cid: Seq<char>,
    content_type: Seq<char>,
    title: Seq<char>,
    description: Seq<char>,
    now: i64,
)
    requires
        hash_commitment_ok(content_cid, claimed_digest),
        !register_fields_ok(content_cid, metadata_cid, content_type, title, description),
    ensures
        spec_register(
            m, creator, content_cid, claimed_digest, metadata_cid, content_type, title,
            description, now,
        ) == (m, Result::<Seq<u8>, ErrorCode>::Err(ErrorCode::FieldTooLong)),
{
}

/// Law: an update or a revocation invoked by any identity other than the
/// stored creator fails with the corresponding unauthorized error and
/// leaves the registry — every field, the timestamp, and the notification
/// log — unchanged.
pub proof fn lemma_unauthorized_mutation_rejected(
    m: RegistryModel,
    actor: Seq<u8>,
    address: Seq<u8>,
    new_metadata_cid: Option<Seq<char>>,
    new_title: Option<Seq<char>>,
    new_description: Option<Seq<char>>,
    now: i64,
)
    requires
        model_wf(m),
        address_occupied(m.entries, address),
        actor != m.entries[entry_index_of(m.entries, address)].record.creator,
    ensures
        spec_update(m, actor, address, new_metadata_cid, new_title, new_description, now) == (
            m,
            Result::<(), ErrorCode>::Err(ErrorCode::UnauthorizedUpdate),
        ),
        spec_revoke(m, actor, address, now) == (
            m,
            Result::<(), ErrorCode>::Err(ErrorCode::UnauthorizedRevocation),
        ),
{
}

/// Law: an update by the creator with all three optional fields absent
/// still succeeds: every stored field keeps its value, the timestamp is
/// refreshed to `now`, no earlier than the prior timestamp, and exactly one
/// update notification is appended.
pub proof fn lemma_empty_update_restamps(
    m: RegistryModel,
    actor: Seq<u8>,
    address: Seq<u8>,
    now: i64,
)
    requires
        model_wf(m),
        address_occupied(m.entries, address),
        actor == m.entries[entry_index_of(m.entries, address)].record.creator,
        now >= m.entries[entry_index_of(m.entries, address)].record.timestamp,
    ensures
        ({
            let i = entry_index_of(m.entries, address);
            let post = spec_update(
                m, actor, address, Option::None, Option::None, Option::None, now,
            ).0;
            let result = spec_update(
                m, actor, address, Option::None, Option::None, Option::None, now,
            ).1;
            &&& result == Result::<(), ErrorCode>::Ok(())
            &&& post.entries[i].record.timestamp == now
            &&& post.entries[i].record.timestamp >= m.entries[i].record.timestamp
            &&& post.entries[i].record.metadata_cid == m.entries[i].record.metadata_cid
            &&& post.entries[i].record.title == m.entries[i].record.title
            &&& post.entries[i].record.description == m.entries[i].record.description
            &&& post.entries[i].record.creator == m.entries[i].record.creator
            &&& post.entries[i].record.content_cid == m.entries[i].record.content_cid
            &&& post.entries[i].record.content_type == m.entries[i].record.content_type
            &&& post.entries[i].record.active == m.entries[i].record.active
            &&& post.events == m.events.push(EventModel::Updated {
                address,
                metadata_cid: m.entries[i].record.metadata_cid,
                timestamp: now,
            })
        }),
{
    let i = entry_index_of(m.entries, address);
    assert(0 <= i < m.entries.len() && m.entries[i].address == address);
}

/// Law: registering a record and then updating it with only a new title,
/// both as the same creator, yields a record whose title is the new one and
/// whose metadata identifier and content identifier still carry the values
/// given at registration.
pub proof fn lemma_register_update_round_trip(
    m0: RegistryModel,
    creator: Seq<u8>,
    content_cid: Seq<char>,
    claimed_digest: Option<Seq<u8>>,
    metadata_cid: Seq<char>,
    content_type: Seq<char>,
    title: Seq<char>,
    description: Seq<char>,
    now1: i64,
    new_title: Seq<char>,
    now2: i64,
)
    requires
        model_wf(m0),
        spec_register(
            m0, creator, content_cid, claimed_digest, metadata_cid, content_type, title,
            description, now1,
        ).1 is Ok,
        byte_len(new_title) <= MAX_TITLE_BYTES,
    ensures
        ({
            let m1 = spec_register(
                m0, creator, content_cid, claimed_digest, metadata_cid, content_type, title,
                description, now1,
            ).0;
            let address = spec_register(
                m0, creator, content_cid, claimed_digest, metadata_cid, content_type, title,
                description, now1,
            ).1->Ok_0;
            let i = entry_index_of(m1.entries, address);
            let post = spec_update(
                m1, creator, address, Option::None, Option::Some(new_title), Option::None, now2,
            ).0;
            let result = spec_update(
                m1, creator, address, Option::None, Option::Some(new_title), Option::None, now2,
            ).1;
            &&& address_occupied(m1.entries, address)
            &&& result == Result::<(), ErrorCode>::Ok(())
            &&& post.entries[i].record.title == new_title
            &&& post.entries[i].record.metadata_cid == metadata_cid
            &&& post.entries[i].record.content_cid == content_cid
            &&& post.entries[i].record.content_type == content_type
            &&& post.entries[i].record.creator == creator
            &&& post.entries[i].record.active
        }),
{
    let m1 = spec_register(
        m0, creator, content_cid, claimed_digest, metadata_cid, content_type, title, description,
        now1,
    ).0;
    let address = spec_register(
        m0, creator, content_cid, claimed_digest, metadata_cid, content_type, title, description,
        now1,
    ).1->Ok_0;
    let n = m0.entries.len() as int;
    assert(m1.entries[n].address == address);
    assert forall|p: int, q: int|
        0 <= p < m1.entries.len() && 0 <= q < m1.entries.len() && p != q
        implies m1.entries[p].address != m1.entries[q].address by {
        assert(!address_occupied(m0.entries, address));
    }
    lemma_entry_index_unique(m1.entries, address, n);
}

/// Law: a revocation by the creator marks the record inactive, and a
/// subsequent update by that same creator still succeeds while the record
/// stays inactive — revocation is terminal under both operations.
pub proof fn lemma_update_after_revoke_keeps_revoked(
    m: RegistryModel,
    actor: Seq<u8>,
    address: Seq<u8>,
    now1: i64,
    new_metadata_cid: Option<Seq<char>>,
    new_title: Option<Seq<char>>,
    new_description: Option<Seq<char>>,
    now2: i64,
)
    requires
        model_wf(m),
        address_occupied(m.entries, address),
        actor == m.entries[entry_index_of(m.entries, address)].record.creator,
        update_fields_ok(new_metadata_cid, new_title, new_description),
    ensures
        ({
            let i = entry_index_of(m.entries, address);
            let m1 = spec_revoke(m, actor, address, now1).0;
            let m2 = spec_update(
                m1, actor, address, new_metadata_cid, new_title, new_description, now2,
            ).0;
            &&& spec_revoke(m, actor, address, now1).1 == Result::<(), ErrorCode>::Ok(())
            &&& !m1.entries[i].record.active
            &&& spec_update(
                m1, actor, address, new_metadata_cid, new_title, new_description, now2,
            ).1 == Result::<(), ErrorCode>::Ok(())
            &&& !m2.entries[i].record.active
        }),
{
    let i = entry_index_of(m.entries, address);
    assert(0 <= i < m.entries.len() && m.entries[i].address == address);
    let m1 = spec_revoke(m, actor, address, now1).0;
    assert(m1.entries[i].address == address);
    assert forall|p: int, q: int|
        0 <= p < m1.entries.len() && 0 <= q < m1.entries.len() && p != q
        implies m1.entries[p].address != m1.entries[q].address by {
        assert(m1.entries[p].address == m.entries[p].address);
        assert(m1.entries[q].address == m.entries[q].address);
    }
    lemma_entry_index_unique(m1.entries, address, i);
    assert(address_occupied(m1.entries, address));
}

} // verus!
