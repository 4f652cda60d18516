//! Deterministic record addressing and the hash-commitment check.
//!
//! A record's storage address is the SHA-256 digest of the namespace tag,
//! the 32-byte creator identity, and the key material for the content
//! identifier, concatenated in that order. The key material is either the
//! raw bytes of the identifier or a caller-supplied 32-byte digest that has
//! been checked to equal the hash of the identifier.

use vstd::prelude::*;
use vstd::utf8::encode_utf8;
use crate::hashing::{append_bytes, bytes_eq, sha256, sha256_of};

verus! {

/// The fixed namespace tag that prefixes every derived address.
pub open spec fn spec_namespace_tag() -> Seq<u8> {
    seq![97u8, 116u8, 116u8, 101u8, 115u8, 116u8, 97u8, 116u8, 105u8, 111u8, 110u8]
}

/// The namespace tag as bytes: the UTF-8 bytes of "attestation".
pub fn namespace_tag() -> (r: Vec<u8>)
    ensures
        r@ == spec_namespace_tag(),
{
    let mut r: Vec<u8> = Vec::new();
    r.push(97);
    r.push(116);
    r.push(116);
    r.push(101);
    r.push(115);
    r.push(116);
    r.push(97);
    r.push(116);
    r.push(105);
    r.push(111);
    r.push(110);
    proof {
        assert(r@ =~= spec_namespace_tag());
    }
    r
}

/// The address derived from a creator identity and key material.
pub open spec fn spec_derive_address(creator: Seq<u8>, key_material: Seq<u8>) -> Seq<u8> {
    sha256_of(spec_namespace_tag() + creator + key_material)
}

/// The key material a registration uses: the claimed digest when one was
/// supplied, else the raw bytes of the content identifier.
pub open spec fn spec_key_material(content_cid: Seq<char>, claimed_digest: Option<Seq<u8>>) -> Seq<u8> {
    match claimed_digest {
        Option::Some(d) => d,
        Option::None => encode_utf8(content_cid),
    }
}

/// Whether a claimed digest is consistent with the content identifier: a
/// supplied digest must equal the SHA-256 hash of the identifier's bytes;
/// when none is supplied there is nothing to check.
pub open spec fn hash_commitment_ok(content_cid: Seq<char>, claimed_digest: Option<Seq<u8>>) -> bool {
    match claimed_digest {
        Option::Some(d) => d == sha256_of(encode_utf8(content_cid)),
        Option::None => true,
    }
}

/// Derives the storage address for a record of `creator` with the given
/// key material.
pub fn derive_address(creator: &[u8], key_material: &[u8]) -> (r: Vec<u8>)
    ensures
        r@ == spec_derive_address(creator@, key_material@),
        r@.len() == 32,
{
    let mut message = namespace_tag();
    append_bytes(&mut message, creator);
    append_bytes(&mut message, key_material);
    sha256(message.as_slice())
}

/// Recomputes the SHA-256 hash of the content identifier's bytes and
/// compares it byte for byte against the claimed digest.
pub fn verify_commitment(content_cid: &str, claimed_digest: &[u8]) -> (r: bool)
    ensures
        r == (claimed_digest@ == sha256_of(encode_utf8(content_cid@))),
{
    let computed = sha256(content_cid.as_bytes());
    bytes_eq(claimed_digest, computed.as_slice())
}

} // verus!
