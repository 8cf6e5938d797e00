//! The registry and its two operations: anchoring a document and approving one.
use vstd::prelude::*;
use crate::address::{bytes_equal, hash_is_zero, Address};
use crate::deriver::{approval_address, doc_address};
use crate::error::{RegistryError, Unauthorized};
use crate::record::{ApprovalAccount, DocumentAccount, Record};
use crate::state::{anchor_validity, approval_validity, Call, RegistryState};
use crate::store::RecordStore;

verus! {

/// Checks that the caller is the actor that an operation requires.
pub fn require_identity(actual: &Address, expected: &Address) -> (result: Result<(), Unauthorized>)
    ensures
        result is Ok <==> *actual == *expected,
{
    if actual.same_as(expected) {
        Ok(())
    } else {
        Err(Unauthorized)
    }
}

/// The checks that precede an anchoring: the hash must not be all-zero, and the caller
/// must be the administrator. The hash is checked first.
pub fn validate_anchor(admin: &Address, authority: &Address, doc_hash: &[u8; 32]) -> (result: Result<
    (),
    RegistryError,
>)
    ensures
        result == anchor_validity(*admin, *authority, *doc_hash),
{
    if hash_is_zero(doc_hash) {
        return Err(RegistryError::InvalidDocHash);
    }
    match require_identity(authority, admin) {
        Ok(_) => Ok(()),
        Err(_) => Err(RegistryError::NotAdmin),
    }
}

/// The checks that an approval makes on the document record it found: the hash asked for
/// must not be all-zero, and the record must hold that hash.
pub fn validate_approval(document: &DocumentAccount, doc_hash: &[u8; 32]) -> (result: Result<
    (),
    RegistryError,
>)
    ensures
        result == approval_validity(*document, *doc_hash),
{
    if hash_is_zero(doc_hash) {
        return Err(RegistryError::InvalidDocHash);
    }
    if bytes_equal(&document.doc_hash, doc_hash) {
        Ok(())
    } else {
        Err(RegistryError::DocHashMismatch)
    }
}

/// The caller of an anchoring. The authority signs the call and pays for the record.
#[derive(Clone, Copy, Debug, PartialEq, Eq)]
pub struct AnchorDocument {
    pub authority: Address,
}

/// The caller of an approval. The user signs the call and pays for the record.
#[derive(Clone, Copy, Debug, PartialEq, Eq)]
pub struct ApproveDocument {
    pub user: Address,
}

/// A registry of anchored documents and their approvals.
pub struct Registry {
    program_id: Address,
    admin: Address,
    store: RecordStore,
}

impl View for Registry {
    type V = RegistryState;

    closed spec fn view(&self) -> RegistryState {
        RegistryState { program_id: self.program_id, admin: self.admin, slots: self.store@ }
    }
}

impl Registry {
    /// The registry is well formed: its store is, and every record in it is sound.
    pub closed spec fn wf(&self) -> bool {
        self.store.wf() && self@.consistent()
    }

    /// Every record of a well-formed registry is sound.
    pub proof fn lemma_consistent(&self)
        requires
            self.wf(),
        ensures
            self@.consistent(),
    {
    }

    /// An empty registry whose addresses are derived under `program_id` and whose only
    /// anchoring actor is `admin`.
    pub fn new(program_id: Address, admin: Address) -> (registry: Registry)
        ensures
            registry.wf(),
            registry@ == (RegistryState { program_id, admin, slots: Map::empty() }),
    {
        Registry { program_id, admin, store: RecordStore::new() }
    }

    /// The program under which the registry derives its addresses.
    pub fn program_id(&self) -> (program_id: Address)
        ensures
            program_id == self@.program_id,
    {
        self.program_id
    }

    /// The administrator.
    pub fn admin(&self) -> (admin: Address)
        ensures
            admin == self@.admin,
    {
        self.admin
    }

    /// The record store of the registry.
    pub fn store(&self) -> (store: &RecordStore)
        ensures
            store@ == self@.slots,
            self.wf() ==> store.wf(),
    {
        &self.store
    }

    /// The document record stored at the address of `doc_hash`, whatever hash it holds.
    fn document_found(&self, doc_hash: &[u8; 32]) -> (found: Option<DocumentAccount>)
        requires
            self.wf(),
        ensures
            found == self@.document_found(*doc_hash),
    {
        match doc_address(&self.program_id, doc_hash) {
            Some(address) => match self.store.get(&address) {
                Ok(Record::Document(document)) => Some(document),
                Ok(Record::Approval(_)) => None,
                Err(_) => None,
            },
            None => None,
        }
    }

    /// The record of the document `doc_hash`, if it is anchored.
    pub fn document(&self, doc_hash: &[u8; 32]) -> (found: Option<DocumentAccount>)
        requires
            self.wf(),
        ensures
            found == self@.document(*doc_hash),
    {
        match self.document_found(doc_hash) {
            Some(document) => if bytes_equal(&document.doc_hash, doc_hash) {
                Some(document)
            } else {
                None
            },
            None => None,
        }
    }

    /// The record of the approval of `doc_hash` by `user`, if there is one.
    pub fn approval(&self, doc_hash: &[u8; 32], user: &Address) -> (found: Option<ApprovalAccount>)
        requires
            self.wf(),
        ensures
            found == self@.approval(*doc_hash, *user),
    {
        match approval_address(&self.program_id, doc_hash, user) {
            Some(address) => match self.store.get(&address) {
                Ok(Record::Approval(approval)) => if bytes_equal(&approval.doc_hash, doc_hash)
                    && approval.user.same_as(user) {
                    Some(approval)
                } else {
                    None
                },
                Ok(Record::Document(_)) => None,
                Err(_) => None,
            },
            None => None,
        }
    }
}

/// Anchors the document `doc_hash` at time `now`: stores its record in the slot derived
/// from the hash, paid for by the caller. The checks come in this order: the hash must
/// not be all-zero, the caller must be the administrator, the slot must be vacant. A
/// failed call changes nothing.
pub fn anchor_document(registry: &mut Registry, ctx: &AnchorDocument, doc_hash: [u8; 32], now: i64) -> (result:
    Result<(), RegistryError>)
    requires
        old(registry).wf(),
        old(registry)@.anchor_derivable(ctx.authority, doc_hash),
    ensures
        final(registry).wf(),
        result == old(registry)@.anchor_outcome(ctx.authority, doc_hash),
        final(registry)@ == old(registry)@.after_anchor(ctx.authority, doc_hash, now),
{
    match validate_anchor(&registry.admin, &ctx.authority, &doc_hash) {
        Err(e) => {
            return Err(e);
        },
        Ok(_) => {},
    }
    let address = doc_address(&registry.program_id, &doc_hash).unwrap();
    let document = DocumentAccount { doc_hash, anchored_by: ctx.authority, anchored_at: now };
    match registry.store.create(address, Record::Document(document), ctx.authority) {
        Ok(_) => Ok(()),
        Err(_) => Err(RegistryError::DuplicateAnchor),
    }
}

/// Anchors the document `doc_hash` as `anchor_document` does, unless the address that
/// the anchoring needs cannot be derived: then nothing is done.
pub fn try_anchor_document(registry: &mut Registry, ctx: &AnchorDocument, doc_hash: [u8; 32], now: i64) -> (attempt:
    Option<Result<(), RegistryError>>)
    requires
        old(registry).wf(),
    ensures
        final(registry).wf(),
        attempt == old(registry)@.attempt(Call::Anchor { authority: ctx.authority, doc_hash, now }),
        final(registry)@ == old(registry)@.after(Call::Anchor { authority: ctx.authority, doc_hash, now }),
{
    if validate_anchor(&registry.admin, &ctx.authority, &doc_hash).is_err() || doc_address(
        &registry.program_id,
        &doc_hash,
    ).is_some() {
        Some(anchor_document(registry, ctx, doc_hash, now))
    } else {
        None
    }
}

/// Records the caller's approval of the document `doc_hash` at time `now`, in the slot
/// derived from the hash and the caller, paid for by the caller. The checks come in this
/// order: the hash must not be all-zero, the document must be anchored, its record must
/// hold the hash, the slot must be vacant. The document record is not touched, and a
/// failed call changes nothing.
pub fn approve_document(registry: &mut Registry, ctx: &ApproveDocument, doc_hash: [u8; 32], now: i64) -> (result:
    Result<(), RegistryError>)
    requires
        old(registry).wf(),
        old(registry)@.approve_derivable(ctx.user, doc_hash),
    ensures
        final(registry).wf(),
        result == old(registry)@.approve_outcome(ctx.user, doc_hash),
        final(registry)@ == old(registry)@.after_approve(ctx.user, doc_hash, now),
{
    if hash_is_zero(&doc_hash) {
        return Err(RegistryError::InvalidDocHash);
    }
    let document = match registry.document_found(&doc_hash) {
        Some(document) => document,
        None => {
            return Err(RegistryError::DocNotAnchored);
        },
    };
    match validate_approval(&document, &doc_hash) {
        Err(e) => {
            return Err(e);
        },
        Ok(_) => {},
    }
    let address = approval_address(&registry.program_id, &doc_hash, &ctx.user).unwrap();
    let approval = ApprovalAccount { doc_hash, user: ctx.user, approved_at: now };
    match registry.store.create(address, Record::Approval(approval), ctx.user) {
        Ok(_) => Ok(()),
        Err(_) => Err(RegistryError::AlreadyApproved),
    }
}

/// Records the caller's approval of the document `doc_hash` as `approve_document` does,
/// unless an address that the approval needs cannot be derived: then nothing is done.
pub fn try_approve_document(registry: &mut Registry, ctx: &ApproveDocument, doc_hash: [u8; 32], now: i64) -> (attempt:
    Option<Result<(), RegistryError>>)
    requires
        old(registry).wf(),
    ensures
        final(registry).wf(),
        attempt == old(registry)@.attempt(Call::Approve { user: ctx.user, doc_hash, now }),
        final(registry)@ == old(registry)@.after(Call::Approve { user: ctx.user, doc_hash, now }),
{
    let derivable = hash_is_zero(&doc_hash) || (doc_address(&registry.program_id, &doc_hash).is_some() && (
        registry.document(&doc_hash).is_none() || approval_address(
            &registry.program_id,
            &doc_hash,
            &ctx.user,
        ).is_some()));
    if derivable {
        Some(approve_document(registry, ctx, doc_hash, now))
    } else {
        None
    }
}

} // verus!
