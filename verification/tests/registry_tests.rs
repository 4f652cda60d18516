use content_attestation::address::{derive_address, namespace_tag, verify_commitment};
use content_attestation::errors::ErrorCode;
use content_attestation::events::RegistryEvent;
use content_attestation::registry::Registry;

fn creator(b: u8) -> Vec<u8> {
    vec![b; 32]
}

fn s(x: &str) -> String {
    x.to_string()
}

fn sha256_digest(bytes: &[u8]) -> Vec<u8> {
    <sha2::Sha256 as sha2::Digest>::digest(bytes).to_vec()
}

fn register_simple(reg: &mut Registry, who: u8, cid: &str, now: i64) -> Result<Vec<u8>, ErrorCode> {
    reg.register_content(
        creator(who),
        s(cid),
        None,
        s("meta"),
        s("image"),
        s("Title"),
        s("Description"),
        now,
    )
}

#[test]
fn namespace_tag_is_attestation() {
    assert_eq!(namespace_tag(), b"attestation".to_vec());
}

#[test]
fn register_stores_record_and_emits_event() {
    let mut reg = Registry::new();
    let addr = reg
        .register_content(
            creator(1),
            s("cidA"),
            None,
            s("metaA"),
            s("image"),
            s("T"),
            s("D"),
            100,
        )
        .unwrap();
    assert_eq!(addr.len(), 32);
    assert_eq!(reg.entries.len(), 1);
    let rec = &reg.entries[0].record;
    assert_eq!(rec.creator, creator(1));
    assert_eq!(rec.content_cid, "cidA");
    assert_eq!(rec.metadata_cid, "metaA");
    assert_eq!(rec.content_type, "image");
    assert_eq!(rec.title, "T");
    assert_eq!(rec.description, "D");
    assert_eq!(rec.timestamp, 100);
    assert!(rec.active);
    assert_eq!(reg.entries[0].address, addr);
    assert_eq!(reg.events.len(), 1);
    match &reg.events[0] {
        RegistryEvent::Registered(e) => {
            assert_eq!(e.creator, creator(1));
            assert_eq!(e.content_cid, "cidA");
            assert_eq!(e.timestamp, 100);
        }
        _ => panic!("expected a registration event"),
    }
}

#[test]
fn derived_address_is_reproducible() {
    let mut reg = Registry::new();
    let addr = register_simple(&mut reg, 1, "cidA", 5).unwrap();
    // Any external client can recompute the address from the raw key material.
    let expected = derive_address(&creator(1), "cidA".as_bytes());
    assert_eq!(addr, expected);
    // The digest-keyed variant uses the digest itself as key material.
    let d = sha256_digest("cidB".as_bytes());
    let addr2 = reg
        .register_content(creator(1), s("cidB"), Some(d.clone()), s("m"), s("t"), s("T"), s("D"), 6)
        .unwrap();
    assert_eq!(addr2, derive_address(&creator(1), &d));
}

#[test]
fn duplicate_registration_rejected() {
    let mut reg = Registry::new();
    let addr = register_simple(&mut reg, 1, "cidA", 5).unwrap();
    let r = reg.register_content(
        creator(1),
        s("cidA"),
        None,
        s("other-meta"),
        s("video"),
        s("Other"),
        s("Other"),
        9,
    );
    assert_eq!(r, Err(ErrorCode::DuplicateAttestation));
    // The first record is untouched.
    assert_eq!(reg.entries.len(), 1);
    assert_eq!(reg.events.len(), 1);
    let rec = &reg.entries[0].record;
    assert_eq!(reg.entries[0].address, addr);
    assert_eq!(rec.metadata_cid, "meta");
    assert_eq!(rec.timestamp, 5);
}

#[test]
fn same_content_different_creator_is_no_duplicate() {
    let mut reg = Registry::new();
    register_simple(&mut reg, 1, "cidA", 5).unwrap();
    assert!(register_simple(&mut reg, 2, "cidA", 6).is_ok());
    assert_eq!(reg.entries.len(), 2);
}

#[test]
fn mismatched_digest_rejected() {
    let mut reg = Registry::new();
    let wrong = sha256_digest("something else".as_bytes());
    let r = reg.register_content(
        creator(1),
        s("cidA"),
        Some(wrong),
        s("m"),
        s("t"),
        s("T"),
        s("D"),
        5,
    );
    assert_eq!(r, Err(ErrorCode::InvalidHash));
    assert_eq!(reg.entries.len(), 0);
    assert_eq!(reg.events.len(), 0);
}

#[test]
fn matching_digest_accepted() {
    let mut reg = Registry::new();
    let d = sha256_digest("cidA".as_bytes());
    let r = reg.register_content(
        creator(1),
        s("cidA"),
        Some(d),
        s("m"),
        s("t"),
        s("T"),
        s("D"),
        5,
    );
    assert!(r.is_ok());
    assert_eq!(reg.entries.len(), 1);
}

#[test]
fn commitment_check_recomputes_the_hash() {
    // The correct digest passes; the identifier's own bytes, padded to the
    // digest length, do not: the check hashes, it does not echo.
    let d = sha256_digest("cidA".as_bytes());
    assert!(verify_commitment("cidA", &d));
    let mut echo = "cidA".as_bytes().to_vec();
    echo.resize(32, 0);
    assert!(!verify_commitment("cidA", &echo));
    assert!(!verify_commitment("cidB", &d));
}

#[test]
fn overlong_fields_rejected() {
    let mut reg = Registry::new();
    let cid101: String = "c".repeat(101);
    let r = register_simple(&mut reg, 1, &cid101, 5);
    assert_eq!(r, Err(ErrorCode::FieldTooLong));
    assert_eq!(reg.entries.len(), 0);

    let title51: String = "t".repeat(51);
    let r = reg.register_content(
        creator(1),
        s("cidA"),
        None,
        s("m"),
        s("t"),
        title51,
        s("D"),
        5,
    );
    assert_eq!(r, Err(ErrorCode::FieldTooLong));

    // Bounds are in bytes, not characters: 51 two-byte characters make a
    // 102-byte identifier.
    let cid_wide: String = "é".repeat(51);
    assert_eq!(cid_wide.chars().count(), 51);
    let r = register_simple(&mut reg, 1, &cid_wide, 5);
    assert_eq!(r, Err(ErrorCode::FieldTooLong));
}

#[test]
fn fields_at_their_bounds_accepted() {
    let mut reg = Registry::new();
    let cid100: String = "c".repeat(100);
    let title50: String = "t".repeat(50);
    let r = reg.register_content(
        creator(1),
        cid100.clone(),
        None,
        "m".repeat(100),
        "t".repeat(100),
        title50,
        "d".repeat(100),
        5,
    );
    assert!(r.is_ok());
    assert_eq!(reg.entries[0].record.content_cid, cid100);
}

#[test]
fn empty_fields_accepted() {
    let mut reg = Registry::new();
    let r = reg.register_content(creator(1), s(""), None, s(""), s(""), s(""), s(""), 0);
    assert!(r.is_ok());
    assert_eq!(reg.entries[0].record.content_cid, "");
}

#[test]
fn unauthorized_update_rejected() {
    let mut reg = Registry::new();
    let addr = register_simple(&mut reg, 1, "cidA", 5).unwrap();
    let r = reg.update_content(&creator(2), &addr, Some(s("new-meta")), None, None, 9);
    assert_eq!(r, Err(ErrorCode::UnauthorizedUpdate));
    let rec = &reg.entries[0].record;
    assert_eq!(rec.metadata_cid, "meta");
    assert_eq!(rec.timestamp, 5);
    assert_eq!(reg.events.len(), 1);
}

#[test]
fn unauthorized_revoke_rejected() {
    let mut reg = Registry::new();
    let addr = register_simple(&mut reg, 1, "cidA", 5).unwrap();
    let r = reg.revoke_content(&creator(2), &addr, 9);
    assert_eq!(r, Err(ErrorCode::UnauthorizedRevocation));
    let rec = &reg.entries[0].record;
    assert!(rec.active);
    assert_eq!(rec.timestamp, 5);
    assert_eq!(reg.events.len(), 1);
}

#[test]
fn empty_update_restamps_and_notifies() {
    let mut reg = Registry::new();
    let addr = register_simple(&mut reg, 1, "cidA", 5).unwrap();
    let r = reg.update_content(&creator(1), &addr, None, None, None, 9);
    assert_eq!(r, Ok(()));
    let rec = &reg.entries[0].record;
    assert_eq!(rec.timestamp, 9);
    assert!(rec.timestamp >= 5);
    assert_eq!(rec.metadata_cid, "meta");
    assert_eq!(rec.title, "Title");
    assert_eq!(reg.events.len(), 2);
    match &reg.events[1] {
        RegistryEvent::Updated(e) => {
            assert_eq!(e.address, addr);
            assert_eq!(e.metadata_cid, "meta");
            assert_eq!(e.timestamp, 9);
        }
        _ => panic!("expected an update event"),
    }
}

#[test]
fn update_replaces_only_supplied_fields() {
    let mut reg = Registry::new();
    let addr = reg
        .register_content(
            creator(1),
            s("cidA"),
            None,
            s("metaA"),
            s("image"),
            s("T"),
            s("D"),
            100,
        )
        .unwrap();
    let r = reg.update_content(&creator(1), &addr, None, Some(s("T2")), None, 200);
    assert_eq!(r, Ok(()));
    let rec = &reg.entries[0].record;
    assert_eq!(rec.title, "T2");
    assert_eq!(rec.metadata_cid, "metaA");
    assert_eq!(rec.content_cid, "cidA");
    assert_eq!(rec.content_type, "image");
    assert_eq!(rec.description, "D");
    assert_eq!(rec.timestamp, 200);
    assert!(rec.active);
}

#[test]
fn overlong_update_rejected() {
    let mut reg = Registry::new();
    let addr = register_simple(&mut reg, 1, "cidA", 5).unwrap();
    let r = reg.update_content(&creator(1), &addr, None, Some("t".repeat(51)), None, 9);
    assert_eq!(r, Err(ErrorCode::FieldTooLong));
    let rec = &reg.entries[0].record;
    assert_eq!(rec.title, "Title");
    assert_eq!(rec.timestamp, 5);
    assert_eq!(reg.events.len(), 1);
}

#[test]
fn revoke_deactivates_and_notifies() {
    let mut reg = Registry::new();
    let addr = register_simple(&mut reg, 1, "cidA", 5).unwrap();
    let r = reg.revoke_content(&creator(1), &addr, 9);
    assert_eq!(r, Ok(()));
    let rec = &reg.entries[0].record;
    assert!(!rec.active);
    assert_eq!(rec.timestamp, 9);
    assert_eq!(rec.content_cid, "cidA");
    assert_eq!(reg.events.len(), 2);
    match &reg.events[1] {
        RegistryEvent::Revoked(e) => {
            assert_eq!(e.address, addr);
            assert_eq!(e.timestamp, 9);
        }
        _ => panic!("expected a revocation event"),
    }
}

#[test]
fn update_after_revoke_succeeds_and_stays_revoked() {
    let mut reg = Registry::new();
    let addr = register_simple(&mut reg, 1, "cidA", 5).unwrap();
    assert_eq!(reg.revoke_content(&creator(1), &addr, 9), Ok(()));
    assert!(!reg.entries[0].record.active);
    // The chosen policy: an update on a revoked record succeeds and the
    // record stays revoked.
    let r = reg.update_content(&creator(1), &addr, None, Some(s("T3")), None, 12);
    assert_eq!(r, Ok(()));
    let rec = &reg.entries[0].record;
    assert_eq!(rec.title, "T3");
    assert!(!rec.active);
    assert_eq!(rec.timestamp, 12);
}

#[test]
fn revoke_twice_restamps_and_renotifies() {
    let mut reg = Registry::new();
    let addr = register_simple(&mut reg, 1, "cidA", 5).unwrap();
    assert_eq!(reg.revoke_content(&creator(1), &addr, 9), Ok(()));
    assert_eq!(reg.revoke_content(&creator(1), &addr, 11), Ok(()));
    let rec = &reg.entries[0].record;
    assert!(!rec.active);
    assert_eq!(rec.timestamp, 11);
    assert_eq!(reg.events.len(), 3);
}

#[test]
fn find_attestation_locates_records() {
    let mut reg = Registry::new();
    let addr_a = register_simple(&mut reg, 1, "cidA", 5).unwrap();
    let addr_b = register_simple(&mut reg, 1, "cidB", 6).unwrap();
    assert_eq!(reg.find_attestation(&addr_a), Some(0));
    assert_eq!(reg.find_attestation(&addr_b), Some(1));
    let absent = derive_address(&creator(1), "cidC".as_bytes());
    assert_eq!(reg.find_attestation(&absent), None);
}
