//! An attendance-tracking ledger with three hierarchical record kinds
//! (Formation, Session, Presence) plus an independent StudentGroup registry.
//! Each entity is a fixed-capacity record stored under a unique address;
//! the single non-creation mutation, presence validation, is gated by an
//! identity check against the owning session's stored authority.

pub mod identity;
pub mod errors;
pub mod capacity;
pub mod records;
pub mod store;
pub mod ledger;
