use anchor_lang::prelude::Pubkey;
use doc_registry::address::{bytes_equal, hash_is_zero, Address};
use doc_registry::deriver::{approval_address, doc_address};
use doc_registry::error::{RegistryError, StoreError, Unauthorized};
use doc_registry::record::{
    ApprovalAccount, DocumentAccount, Record, ADDRESS_LEN, DISCRIMINATOR_LEN, HASH_LEN,
    TIMESTAMP_LEN,
};
use doc_registry::registry::{
    anchor_document, approve_document, require_identity, try_anchor_document,
    try_approve_document, validate_anchor, validate_approval, AnchorDocument, ApproveDocument,
    Registry,
};

const PROGRAM_ID: &str = "5tjey2DhszrAfN8u6CRxZ4RwyfkV3fXpqyXxVj7prtNo";
const ADMIN: &str = "EdyfuA8XdLjmSafUxVUuhmMZSFVXZ8u4G1MTLTtZDyNk";

// SHA-256 of "contract-v1".
const H1: [u8; 32] = [
    79, 96, 186, 121, 203, 168, 50, 219, 192, 152, 220, 92, 19, 170, 197, 72, 21, 43, 108, 203, 96,
    215, 90, 184, 15, 125, 255, 45, 145, 164, 205, 195,
];

// SHA-256 of "contract-v2".
const H2: [u8; 32] = [
    103, 176, 79, 243, 146, 20, 135, 134, 183, 111, 69, 211, 211, 91, 186, 167, 144, 129, 216, 110,
    70, 91, 159, 186, 175, 218, 101, 119, 230, 184, 23, 26,
];

const ZERO: [u8; 32] = [0; 32];

fn program() -> Address {
    Address::new(Pubkey::from_str_const(PROGRAM_ID).to_bytes())
}

fn admin() -> Address {
    Address::new(Pubkey::from_str_const(ADMIN).to_bytes())
}

fn alice() -> Address {
    Address::new([0xA1; 32])
}

fn bob() -> Address {
    Address::new([0xB0; 32])
}

fn registry() -> Registry {
    Registry::new(program(), admin())
}

fn by(authority: Address) -> AnchorDocument {
    AnchorDocument { authority }
}

fn user(user: Address) -> ApproveDocument {
    ApproveDocument { user }
}

#[test]
fn a_new_registry_keeps_its_configuration_and_holds_nothing() {
    let registry = registry();
    assert_eq!(registry.program_id(), program());
    assert_eq!(registry.admin(), admin());
    assert_eq!(registry.document(&H1), None);
    assert_eq!(registry.approval(&H1, &alice()), None);
    assert!(!registry.store().contains(&doc_address(&program(), &H1).unwrap()));
}

#[test]
fn anchoring_once_succeeds_and_a_second_time_fails() {
    let mut registry = registry();
    assert_eq!(anchor_document(&mut registry, &by(admin()), H1, 1_700_000_000), Ok(()));
    let expected =
        DocumentAccount { doc_hash: H1, anchored_by: admin(), anchored_at: 1_700_000_000 };
    assert_eq!(registry.document(&H1), Some(expected));
    assert_eq!(
        anchor_document(&mut registry, &by(admin()), H1, 1_700_000_001),
        Err(RegistryError::DuplicateAnchor)
    );
    assert_eq!(registry.document(&H1), Some(expected));
}

#[test]
fn anchoring_stores_the_record_at_the_derived_address_paid_by_the_admin() {
    let mut registry = registry();
    assert_eq!(anchor_document(&mut registry, &by(admin()), H1, 42), Ok(()));
    let address = doc_address(&program(), &H1).unwrap();
    assert_eq!(
        registry.store().get(&address),
        Ok(Record::Document(DocumentAccount { doc_hash: H1, anchored_by: admin(), anchored_at: 42 }))
    );
    assert_eq!(registry.store().payer(&address), Ok(admin()));
    assert_eq!(
        registry.store().get(&doc_address(&program(), &H2).unwrap()),
        Err(StoreError::NotFound)
    );
}

#[test]
fn anchoring_the_zero_hash_fails_whoever_calls() {
    let mut registry = registry();
    assert_eq!(
        anchor_document(&mut registry, &by(admin()), ZERO, 1),
        Err(RegistryError::InvalidDocHash)
    );
    assert_eq!(
        anchor_document(&mut registry, &by(alice()), ZERO, 1),
        Err(RegistryError::InvalidDocHash)
    );
    assert_eq!(registry.document(&ZERO), None);
    assert!(!registry.store().contains(&doc_address(&program(), &ZERO).unwrap()));
}

#[test]
fn anchoring_by_another_than_the_admin_fails() {
    let mut registry = registry();
    assert_eq!(anchor_document(&mut registry, &by(alice()), H1, 1), Err(RegistryError::NotAdmin));
    assert_eq!(registry.document(&H1), None);
    assert_eq!(anchor_document(&mut registry, &by(admin()), H1, 2), Ok(()));
    assert_eq!(anchor_document(&mut registry, &by(alice()), H1, 3), Err(RegistryError::NotAdmin));
    assert_eq!(anchor_document(&mut registry, &by(alice()), H2, 3), Err(RegistryError::NotAdmin));
    let mut nearly = admin().to_bytes();
    nearly[31] ^= 1;
    assert_eq!(
        anchor_document(&mut registry, &by(Address::new(nearly)), H2, 4),
        Err(RegistryError::NotAdmin)
    );
    assert_eq!(registry.document(&H2), None);
}

#[test]
fn approving_before_anchoring_fails() {
    let mut registry = registry();
    assert_eq!(
        approve_document(&mut registry, &user(alice()), H1, 1),
        Err(RegistryError::DocNotAnchored)
    );
    assert_eq!(
        approve_document(&mut registry, &user(admin()), H1, 1),
        Err(RegistryError::DocNotAnchored)
    );
    assert_eq!(registry.approval(&H1, &alice()), None);
    assert_eq!(anchor_document(&mut registry, &by(admin()), H1, 2), Ok(()));
    assert_eq!(
        approve_document(&mut registry, &user(alice()), H2, 3),
        Err(RegistryError::DocNotAnchored)
    );
}

#[test]
fn approving_the_zero_hash_fails() {
    let mut registry = registry();
    assert_eq!(
        approve_document(&mut registry, &user(alice()), ZERO, 1),
        Err(RegistryError::InvalidDocHash)
    );
}

#[test]
fn approving_once_succeeds_and_a_second_time_fails() {
    let mut registry = registry();
    assert_eq!(anchor_document(&mut registry, &by(admin()), H1, 10), Ok(()));
    assert_eq!(approve_document(&mut registry, &user(alice()), H1, 11), Ok(()));
    let expected = ApprovalAccount { doc_hash: H1, user: alice(), approved_at: 11 };
    assert_eq!(registry.approval(&H1, &alice()), Some(expected));
    assert_eq!(
        approve_document(&mut registry, &user(alice()), H1, 12),
        Err(RegistryError::AlreadyApproved)
    );
    assert_eq!(registry.approval(&H1, &alice()), Some(expected));
    assert_eq!(registry.approval(&H1, &bob()), None);
    assert_eq!(approve_document(&mut registry, &user(bob()), H1, 13), Ok(()));
    assert_eq!(
        registry.approval(&H1, &bob()),
        Some(ApprovalAccount { doc_hash: H1, user: bob(), approved_at: 13 })
    );
    assert_eq!(registry.approval(&H1, &alice()), Some(expected));
}

#[test]
fn approving_stores_the_record_at_the_derived_address_paid_by_the_user() {
    let mut registry = registry();
    assert_eq!(anchor_document(&mut registry, &by(admin()), H1, 10), Ok(()));
    assert_eq!(approve_document(&mut registry, &user(alice()), H1, -5), Ok(()));
    let address = approval_address(&program(), &H1, &alice()).unwrap();
    assert_eq!(
        registry.store().get(&address),
        Ok(Record::Approval(ApprovalAccount { doc_hash: H1, user: alice(), approved_at: -5 }))
    );
    assert_eq!(registry.store().payer(&address), Ok(alice()));
}

#[test]
fn approving_leaves_the_document_record_as_it_was() {
    let mut registry = registry();
    assert_eq!(anchor_document(&mut registry, &by(admin()), H1, 10), Ok(()));
    let before = registry.document(&H1);
    assert_eq!(approve_document(&mut registry, &user(alice()), H1, 11), Ok(()));
    assert_eq!(approve_document(&mut registry, &user(bob()), H1, 12), Ok(()));
    assert_eq!(registry.document(&H1), before);
    assert_eq!(registry.store().payer(&doc_address(&program(), &H1).unwrap()), Ok(admin()));
}

#[test]
fn the_admin_may_approve_too() {
    let mut registry = registry();
    assert_eq!(anchor_document(&mut registry, &by(admin()), H1, 10), Ok(()));
    assert_eq!(approve_document(&mut registry, &user(admin()), H1, 11), Ok(()));
    assert_eq!(
        approve_document(&mut registry, &user(admin()), H1, 12),
        Err(RegistryError::AlreadyApproved)
    );
}

#[test]
fn each_key_succeeds_exactly_once() {
    let mut registry = registry();
    let mut anchored = 0;
    let mut approved = 0;
    for round in 0..5 {
        if anchor_document(&mut registry, &by(admin()), H1, round).is_ok() {
            anchored += 1;
        }
        if approve_document(&mut registry, &user(alice()), H1, round).is_ok() {
            approved += 1;
        }
    }
    assert_eq!(anchored, 1);
    assert_eq!(approved, 1);
    assert_eq!(
        registry.document(&H1),
        Some(DocumentAccount { doc_hash: H1, anchored_by: admin(), anchored_at: 0 })
    );
    assert_eq!(
        registry.approval(&H1, &alice()),
        Some(ApprovalAccount { doc_hash: H1, user: alice(), approved_at: 0 })
    );
}

#[test]
fn the_contract_scenario() {
    let mut registry = registry();
    assert_eq!(anchor_document(&mut registry, &by(admin()), H1, 100), Ok(()));
    assert_eq!(approve_document(&mut registry, &user(alice()), H1, 101), Ok(()));
    assert_eq!(
        approve_document(&mut registry, &user(alice()), H1, 102),
        Err(RegistryError::AlreadyApproved)
    );
    assert_eq!(approve_document(&mut registry, &user(bob()), H1, 103), Ok(()));
    assert_eq!(anchor_document(&mut registry, &by(alice()), H2, 104), Err(RegistryError::NotAdmin));
    assert_eq!(
        anchor_document(&mut registry, &by(admin()), H1, 105),
        Err(RegistryError::DuplicateAnchor)
    );
    assert_eq!(
        anchor_document(&mut registry, &by(admin()), ZERO, 106),
        Err(RegistryError::InvalidDocHash)
    );
}

#[test]
fn attempts_give_what_the_operations_give() {
    let mut registry = registry();
    assert_eq!(
        try_approve_document(&mut registry, &user(alice()), H1, 1),
        Some(Err(RegistryError::DocNotAnchored))
    );
    assert_eq!(try_anchor_document(&mut registry, &by(admin()), H1, 2), Some(Ok(())));
    assert_eq!(
        try_anchor_document(&mut registry, &by(admin()), H1, 3),
        Some(Err(RegistryError::DuplicateAnchor))
    );
    assert_eq!(
        try_anchor_document(&mut registry, &by(bob()), H2, 3),
        Some(Err(RegistryError::NotAdmin))
    );
    assert_eq!(
        try_anchor_document(&mut registry, &by(bob()), ZERO, 3),
        Some(Err(RegistryError::InvalidDocHash))
    );
    assert_eq!(try_approve_document(&mut registry, &user(alice()), H1, 4), Some(Ok(())));
    assert_eq!(
        try_approve_document(&mut registry, &user(alice()), H1, 5),
        Some(Err(RegistryError::AlreadyApproved))
    );
    assert_eq!(
        try_approve_document(&mut registry, &user(alice()), ZERO, 5),
        Some(Err(RegistryError::InvalidDocHash))
    );
    assert_eq!(
        registry.document(&H1),
        Some(DocumentAccount { doc_hash: H1, anchored_by: admin(), anchored_at: 2 })
    );
    assert_eq!(
        registry.approval(&H1, &alice()),
        Some(ApprovalAccount { doc_hash: H1, user: alice(), approved_at: 4 })
    );
}

#[test]
fn another_administrator_can_be_configured() {
    let mut registry = Registry::new(program(), bob());
    assert_eq!(anchor_document(&mut registry, &by(admin()), H1, 1), Err(RegistryError::NotAdmin));
    assert_eq!(anchor_document(&mut registry, &by(bob()), H1, 1), Ok(()));
    assert_eq!(
        registry.document(&H1),
        Some(DocumentAccount { doc_hash: H1, anchored_by: bob(), anchored_at: 1 })
    );
}

#[test]
fn validate_anchor_checks_the_hash_first() {
    assert_eq!(validate_anchor(&admin(), &alice(), &ZERO), Err(RegistryError::InvalidDocHash));
    assert_eq!(validate_anchor(&admin(), &admin(), &ZERO), Err(RegistryError::InvalidDocHash));
    assert_eq!(validate_anchor(&admin(), &alice(), &H1), Err(RegistryError::NotAdmin));
    assert_eq!(validate_anchor(&admin(), &admin(), &H1), Ok(()));
}

#[test]
fn validate_approval_compares_the_hashes() {
    let document = DocumentAccount { doc_hash: H1, anchored_by: admin(), anchored_at: 1 };
    assert_eq!(validate_approval(&document, &H1), Ok(()));
    assert_eq!(validate_approval(&document, &H2), Err(RegistryError::DocHashMismatch));
    assert_eq!(validate_approval(&document, &ZERO), Err(RegistryError::InvalidDocHash));
    let mut nearly = H1;
    nearly[31] ^= 0x80;
    assert_eq!(validate_approval(&document, &nearly), Err(RegistryError::DocHashMismatch));
}

#[test]
fn require_identity_is_equality() {
    assert_eq!(require_identity(&alice(), &alice()), Ok(()));
    assert_eq!(require_identity(&alice(), &bob()), Err(Unauthorized));
    assert_eq!(require_identity(&bob(), &alice()), Err(Unauthorized));
}

#[test]
fn hash_is_zero_looks_at_every_byte() {
    assert!(hash_is_zero(&ZERO));
    for i in 0..32 {
        let mut hash = ZERO;
        hash[i] = 1;
        assert!(!hash_is_zero(&hash));
    }
    assert!(!hash_is_zero(&H1));
}

#[test]
fn bytes_equal_looks_at_every_byte() {
    assert!(bytes_equal(&H1, &H1));
    assert!(!bytes_equal(&H1, &H2));
    for i in 0..32 {
        let mut other = H1;
        other[i] ^= 1;
        assert!(!bytes_equal(&H1, &other));
        assert!(!Address::new(H1).same_as(&Address::new(other)));
    }
    assert!(Address::new(H1).same_as(&Address::new(H1)));
}

#[test]
fn a_hash_with_one_set_bit_can_be_anchored() {
    let mut registry = registry();
    let mut hash = ZERO;
    hash[31] = 1;
    assert_eq!(anchor_document(&mut registry, &by(admin()), hash, 1), Ok(()));
    assert_eq!(approve_document(&mut registry, &user(alice()), hash, i64::MAX), Ok(()));
    assert_eq!(
        registry.approval(&hash, &alice()),
        Some(ApprovalAccount { doc_hash: hash, user: alice(), approved_at: i64::MAX })
    );
}

#[test]
fn records_have_a_fixed_size() {
    assert_eq!(DISCRIMINATOR_LEN, 8);
    assert_eq!(HASH_LEN, 32);
    assert_eq!(ADDRESS_LEN, 32);
    assert_eq!(TIMESTAMP_LEN, 8);
    assert_eq!(DocumentAccount::LEN, 80);
    assert_eq!(ApprovalAccount::LEN, 80);
}

#[test]
fn every_error_has_its_message() {
    assert_eq!(RegistryError::InvalidDocHash.message(), "Invalid doc hash (all zeros).");
    assert_eq!(RegistryError::NotAdmin.message(), "Only admin can anchor documents.");
    assert_eq!(RegistryError::DocHashMismatch.message(), "Document hash mismatch.");
    assert_eq!(RegistryError::DuplicateAnchor.message(), "Document is already anchored.");
    assert_eq!(RegistryError::DocNotAnchored.message(), "Document is not anchored.");
    assert_eq!(
        RegistryError::AlreadyApproved.message(),
        "Document is already approved by this user."
    );
}
