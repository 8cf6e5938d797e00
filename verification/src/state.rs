//! The registry as a mathematical state, and what each operation does to it.
use vstd::prelude::*;
use crate::address::{is_zero_hash, Address};
use crate::deriver::{approval_address_of, doc_address_of};
use crate::error::RegistryError;
use crate::record::{ApprovalAccount, DocumentAccount, Record, Slot};

verus! {

/// The outcome of the checks that precede an anchoring: the hash first, then the caller.
pub open spec fn anchor_validity(admin: Address, authority: Address, doc_hash: [u8; 32]) -> Result<
    (),
    RegistryError,
> {
    if is_zero_hash(doc_hash) {
        Err(RegistryError::InvalidDocHash)
    } else if authority != admin {
        Err(RegistryError::NotAdmin)
    } else {
        Ok(())
    }
}

/// The outcome of the checks that an approval makes on the document record it found: the
/// hash asked for first, then the hash in the record.
pub open spec fn approval_validity(document: DocumentAccount, doc_hash: [u8; 32]) -> Result<
    (),
    RegistryError,
> {
    if is_zero_hash(doc_hash) {
        Err(RegistryError::InvalidDocHash)
    } else if document.doc_hash != doc_hash {
        Err(RegistryError::DocHashMismatch)
    } else {
        Ok(())
    }
}

/// The slot that an anchoring by `authority` at time `now` fills.
pub open spec fn document_slot(authority: Address, doc_hash: [u8; 32], now: i64) -> Slot {
    Slot {
        payer: authority,
        record: Record::Document(DocumentAccount { doc_hash, anchored_by: authority, anchored_at: now }),
    }
}

/// The slot that an approval by `user` at time `now` fills.
pub open spec fn approval_slot(user: Address, doc_hash: [u8; 32], now: i64) -> Slot {
    Slot { payer: user, record: Record::Approval(ApprovalAccount { doc_hash, user, approved_at: now }) }
}

/// A registry: its configuration, and the slots that are filled.
pub struct RegistryState {
    /// The program under which addresses are derived.
    pub program_id: Address,
    /// The only actor who may anchor documents.
    pub admin: Address,
    /// The filled slots, by address.
    pub slots: Map<Seq<u8>, Slot>,
}

impl RegistryState {
    /// The address of the document record of `doc_hash`, where one can be derived.
    pub open spec fn doc_address(self, doc_hash: [u8; 32]) -> Option<Seq<u8>> {
        doc_address_of(self.program_id@, doc_hash@)
    }

    /// The address of the approval of `doc_hash` by `user`, where one can be derived.
    pub open spec fn approval_address(self, doc_hash: [u8; 32], user: Address) -> Option<Seq<u8>> {
        approval_address_of(self.program_id@, doc_hash@, user@)
    }

    /// The document record stored at the address of `doc_hash`, whatever hash it holds.
    pub open spec fn document_found(self, doc_hash: [u8; 32]) -> Option<DocumentAccount> {
        match self.doc_address(doc_hash) {
            Some(address) => if self.slots.contains_key(address) {
                match self.slots[address].record {
                    Record::Document(document) => Some(document),
                    Record::Approval(_) => None,
                }
            } else {
                None
            },
            None => None,
        }
    }

    /// The record of the document `doc_hash`, if it is anchored.
    pub open spec fn document(self, doc_hash: [u8; 32]) -> Option<DocumentAccount> {
        match self.document_found(doc_hash) {
            Some(document) => if document.doc_hash == doc_hash {
                Some(document)
            } else {
                None
            },
            None => None,
        }
    }

    /// The record of the approval of `doc_hash` by `user`, if there is one.
    pub open spec fn approval(self, doc_hash: [u8; 32], user: Address) -> Option<ApprovalAccount> {
        match self.approval_address(doc_hash, user) {
            Some(address) => if self.slots.contains_key(address) {
                match self.slots[address].record {
                    Record::Approval(approval) => if approval.doc_hash == doc_hash && approval.user == user {
                        Some(approval)
                    } else {
                        None
                    },
                    Record::Document(_) => None,
                }
            } else {
                None
            },
            None => None,
        }
    }

    /// An anchoring of `doc_hash` by `authority` never asks for an address that cannot be
    /// derived. Only a passed check leads to a derivation.
    pub open spec fn anchor_derivable(self, authority: Address, doc_hash: [u8; 32]) -> bool {
        anchor_validity(self.admin, authority, doc_hash) is Ok ==> self.doc_address(doc_hash) is Some
    }

    /// What an anchoring of `doc_hash` by `authority` returns.
    pub open spec fn anchor_outcome(self, authority: Address, doc_hash: [u8; 32]) -> Result<
        (),
        RegistryError,
    > {
        match anchor_validity(self.admin, authority, doc_hash) {
            Err(e) => Err(e),
            Ok(_) => if self.slots.contains_key(self.doc_address(doc_hash).unwrap()) {
                Err(RegistryError::DuplicateAnchor)
            } else {
                Ok(())
            },
        }
    }

    /// The registry after an anchoring of `doc_hash` by `authority` at time `now`: one
    /// new document record where the anchoring succeeds, no change where it fails.
    pub open spec fn after_anchor(self, authority: Address, doc_hash: [u8; 32], now: i64) -> RegistryState {
        if self.anchor_outcome(authority, doc_hash) is Ok {
            RegistryState {
                slots: self.slots.insert(
                    self.doc_address(doc_hash).unwrap(),
                    document_slot(authority, doc_hash, now),
                ),
                ..self
            }
        } else {
            self
        }
    }

    /// An approval of `doc_hash` by `user` never asks for an address that cannot be
    /// derived: the document's address for every hash but the all-zero one, the
    /// approval's address once the document record is found and holds the hash.
    pub open spec fn approve_derivable(self, user: Address, doc_hash: [u8; 32]) -> bool {
        !is_zero_hash(doc_hash) ==> {
            &&& self.doc_address(doc_hash) is Some
            &&& self.document(doc_hash) is Some ==> self.approval_address(doc_hash, user) is Some
        }
    }

    /// What an approval of `doc_hash` by `user` returns. A slot at the document's address
    /// that holds no document record counts as no document.
    pub open spec fn approve_outcome(self, user: Address, doc_hash: [u8; 32]) -> Result<(), RegistryError> {
        if is_zero_hash(doc_hash) {
            Err(RegistryError::InvalidDocHash)
        } else {
            match self.document_found(doc_hash) {
                None => Err(RegistryError::DocNotAnchored),
                Some(document) => if document.doc_hash != doc_hash {
                    Err(RegistryError::DocHashMismatch)
                } else if self.slots.contains_key(self.approval_address(doc_hash, user).unwrap()) {
                    Err(RegistryError::AlreadyApproved)
                } else {
                    Ok(())
                },
            }
        }
    }

    /// The registry after an approval of `doc_hash` by `user` at time `now`: one new
    /// approval record where the approval succeeds, no change where it fails.
    pub open spec fn after_approve(self, user: Address, doc_hash: [u8; 32], now: i64) -> RegistryState {
        if self.approve_outcome(user, doc_hash) is Ok {
            RegistryState {
                slots: self.slots.insert(
                    self.approval_address(doc_hash, user).unwrap(),
                    approval_slot(user, doc_hash, now),
                ),
                ..self
            }
        } else {
            self
        }
    }

    /// The document record in the slot at `address` is sound: its hash is not all-zero,
    /// it sits at the address derived from its hash, and the administrator anchored it
    /// and paid for it.
    pub open spec fn document_sound(self, address: Seq<u8>, payer: Address, document: DocumentAccount) -> bool {
        &&& !is_zero_hash(document.doc_hash)
        &&& self.doc_address(document.doc_hash) == Some(address)
        &&& document.anchored_by == self.admin
        &&& payer == document.anchored_by
    }

    /// The approval record in the slot at `address` is sound: it sits at the address
    /// derived from its hash and its user, the user paid for it, and the document it
    /// approves is anchored.
    pub open spec fn approval_sound(self, address: Seq<u8>, payer: Address, approval: ApprovalAccount) -> bool {
        &&& self.approval_address(approval.doc_hash, approval.user) == Some(address)
        &&& payer == approval.user
        &&& self.document(approval.doc_hash) is Some
    }

    /// Every record in the registry is sound.
    pub open spec fn consistent(self) -> bool {
        forall|address: Seq<u8>| #[trigger]
            self.slots.contains_key(address) ==> match self.slots[address].record {
                Record::Document(document) => self.document_sound(address, self.slots[address].payer, document),
                Record::Approval(approval) => self.approval_sound(address, self.slots[address].payer, approval),
            }
    }
}

/// A call of one of the two operations, with the time at which it is made.
pub enum Call {
    /// `authority` anchors `doc_hash`.
    Anchor { authority: Address, doc_hash: [u8; 32], now: i64 },
    /// `user` approves `doc_hash`.
    Approve { user: Address, doc_hash: [u8; 32], now: i64 },
}

impl Call {
    /// Two calls are for the same key: two anchorings of one hash, or two approvals of
    /// one hash by one user.
    pub open spec fn same_key(self, other: Call) -> bool {
        match (self, other) {
            (Call::Anchor { doc_hash: first, .. }, Call::Anchor { doc_hash: second, .. }) => first == second,
            (
                Call::Approve { user: first_user, doc_hash: first, .. },
                Call::Approve { user: second_user, doc_hash: second, .. },
            ) => first == second && first_user == second_user,
            _ => false,
        }
    }
}

impl RegistryState {
    /// Every address that the call needs can be derived.
    pub open spec fn derivable(self, call: Call) -> bool {
        match call {
            Call::Anchor { authority, doc_hash, .. } => self.anchor_derivable(authority, doc_hash),
            Call::Approve { user, doc_hash, .. } => self.approve_derivable(user, doc_hash),
        }
    }

    /// What an attempt at the call gives: the outcome of the operation, or `None` where
    /// an address that it needs cannot be derived.
    pub open spec fn attempt(self, call: Call) -> Option<Result<(), RegistryError>> {
        if self.derivable(call) {
            match call {
                Call::Anchor { authority, doc_hash, .. } => Some(self.anchor_outcome(authority, doc_hash)),
                Call::Approve { user, doc_hash, .. } => Some(self.approve_outcome(user, doc_hash)),
            }
        } else {
            None
        }
    }

    /// The registry after an attempt at the call.
    pub open spec fn after(self, call: Call) -> RegistryState {
        if self.derivable(call) {
            match call {
                Call::Anchor { authority, doc_hash, now } => self.after_anchor(authority, doc_hash, now),
                Call::Approve { user, doc_hash, now } => self.after_approve(user, doc_hash, now),
            }
        } else {
            self
        }
    }

    /// The registry after attempts at the first `count` of the calls, in order.
    pub open spec fn after_first(self, calls: Seq<Call>, count: nat) -> RegistryState
        decreases count,
    {
        if count == 0 {
            self
        } else {
            self.after_first(calls, (count - 1) as nat).after(calls[count - 1])
        }
    }

    /// Everything stored in `self` is stored in `later`, unchanged, and the
    /// configuration is the same.
    pub open spec fn kept_by(self, later: RegistryState) -> bool {
        &&& later.program_id == self.program_id
        &&& later.admin == self.admin
        &&& self.slots.submap_of(later.slots)
    }
}

} // verus!
