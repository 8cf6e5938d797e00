//! A document-anchoring and approval ledger.
pub mod address;
pub mod deriver;
pub mod error;
pub mod laws;
pub mod record;
pub mod registry;
pub mod state;
pub mod store;
