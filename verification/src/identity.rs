use vstd::prelude::*;

verus! {

/// A 32-byte public identity, already verified by the host before the core
/// logic runs; the core only ever compares identities for equality.
/// Held as two 128-bit halves.
#[derive(Clone, Copy, PartialEq, Eq, Structural, Debug)]
pub struct Identity {
    pub hi: u128,
    pub lo: u128,
}

/// The 32-byte address under which a record is stored. Addresses are assigned
/// once at creation and never reused; the host derives them.
/// Held as two 128-bit halves.
#[derive(Clone, Copy, PartialEq, Eq, Structural, Debug)]
pub struct Address {
    pub hi: u128,
    pub lo: u128,
}

} // verus!
