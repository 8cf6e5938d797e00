//! The errors of the registry.
use vstd::prelude::*;

verus! {

/// Why an anchoring or an approval was refused.
#[derive(Clone, Copy, Debug, PartialEq, Eq, Structural)]
pub enum RegistryError {
    /// The document hash is the reserved all-zero value.
    InvalidDocHash,
    /// The caller is not the administrator.
    NotAdmin,
    /// The record found for the document holds another hash.
    DocHashMismatch,
    /// The document is anchored already.
    DuplicateAnchor,
    /// No record of the document exists.
    DocNotAnchored,
    /// The caller has approved the document already.
    AlreadyApproved,
}

impl RegistryError {
    /// The text that goes with each error.
    pub open spec fn message_text(self) -> Seq<char> {
        match self {
            RegistryError::InvalidDocHash => "Invalid doc hash (all zeros)."@,
            RegistryError::NotAdmin => "Only admin can anchor documents."@,
            RegistryError::DocHashMismatch => "Document hash mismatch."@,
            RegistryError::DuplicateAnchor => "Document is already anchored."@,
            RegistryError::DocNotAnchored => "Document is not anchored."@,
            RegistryError::AlreadyApproved => "Document is already approved by this user."@,
        }
    }

    /// A short description of the error, for people.
    pub fn message(&self) -> (text: &'static str)
        ensures
            text@ == self.message_text(),
    {
        match self {
            RegistryError::InvalidDocHash => "Invalid doc hash (all zeros).",
            RegistryError::NotAdmin => "Only admin can anchor documents.",
            RegistryError::DocHashMismatch => "Document hash mismatch.",
            RegistryError::DuplicateAnchor => "Document is already anchored.",
            RegistryError::DocNotAnchored => "Document is not anchored.",
            RegistryError::AlreadyApproved => "Document is already approved by this user.",
        }
    }
}

/// The identity check failed: the caller is not who the operation requires.
#[derive(Clone, Copy, Debug, PartialEq, Eq, Structural)]
pub struct Unauthorized;

/// Why the record store refused a request.
#[derive(Clone, Copy, Debug, PartialEq, Eq, Structural)]
pub enum StoreError {
    /// A record is stored at the address already.
    AddressAlreadyInUse,
    /// No record is stored at the address.
    NotFound,
}

} // verus!
