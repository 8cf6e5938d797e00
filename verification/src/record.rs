//! The two kinds of record that the registry keeps.
use vstd::prelude::*;
use crate::address::Address;

verus! {

/// Bytes of the tag that precedes a stored record and tells its kind.
pub const DISCRIMINATOR_LEN: usize = 8;

/// Bytes of a document hash.
pub const HASH_LEN: usize = 32;

/// Bytes of an address.
pub const ADDRESS_LEN: usize = 32;

/// Bytes of a timestamp, a signed 64-bit number.
pub const TIMESTAMP_LEN: usize = 8;

/// The record of an anchored document. It is written once and never changed.
#[derive(Clone, Copy, Debug, PartialEq, Eq)]
pub struct DocumentAccount {
    /// The hash of the document's content; never all-zero.
    pub doc_hash: [u8; 32],
    /// Who anchored the document.
    pub anchored_by: Address,
    /// When the document was anchored.
    pub anchored_at: i64,
}

impl DocumentAccount {
    /// The size of a stored document record: tag, hash, address and timestamp.
    pub const LEN: usize = DISCRIMINATOR_LEN + HASH_LEN + ADDRESS_LEN + TIMESTAMP_LEN;
}

/// The record of one actor's approval of an anchored document. It is written once and
/// never changed.
#[derive(Clone, Copy, Debug, PartialEq, Eq)]
pub struct ApprovalAccount {
    /// The hash of the approved document.
    pub doc_hash: [u8; 32],
    /// Who approved it.
    pub user: Address,
    /// When it was approved.
    pub approved_at: i64,
}

impl ApprovalAccount {
    /// The size of a stored approval record: tag, hash, address and timestamp.
    pub const LEN: usize = DISCRIMINATOR_LEN + HASH_LEN + ADDRESS_LEN + TIMESTAMP_LEN;
}

/// What a storage slot can hold.
#[derive(Clone, Copy, Debug, PartialEq, Eq)]
pub enum Record {
    Document(DocumentAccount),
    Approval(ApprovalAccount),
}

/// A filled storage slot: the record, and the actor who paid for the slot.
#[derive(Clone, Copy, Debug, PartialEq, Eq)]
pub struct Slot {
    pub payer: Address,
    pub record: Record,
}

} // verus!
