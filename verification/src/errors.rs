use vstd::prelude::*;

verus! {

/// The error taxonomy. Every failure aborts the whole operation: the ledger
/// is left exactly as it was, and the error is surfaced verbatim.
#[derive(Clone, Copy, PartialEq, Eq, Structural, Debug)]
pub enum AlyraSignError {
    /// Creation was requested against an address that already holds a record.
    AlreadyExists,
    /// A referenced parent record (the Formation of a Session, the Session of
    /// a Presence) is absent, or is not the record the child names.
    NotFound,
    /// The caller's identity does not match the authority stored on the
    /// session whose presence is being validated.
    UnauthorizedValidation,
    /// A variable-length field is longer than its declared byte capacity;
    /// nothing is truncated and nothing is stored.
    CapacityExceeded,
}

impl AlyraSignError {
    /// A descriptive message for the caller.
    pub fn message(&self) -> (r: &'static str)
        ensures
            r@ == match *self {
                AlyraSignError::AlreadyExists => "a record already exists at this address"@,
                AlyraSignError::NotFound => "a referenced record was not found"@,
                AlyraSignError::UnauthorizedValidation => "only the session authority may validate presences"@,
                AlyraSignError::CapacityExceeded => "a field exceeds its declared capacity"@,
            },
    {
        match *self {
            AlyraSignError::AlreadyExists => "a record already exists at this address",
            AlyraSignError::NotFound => "a referenced record was not found",
            AlyraSignError::UnauthorizedValidation => "only the session authority may validate presences",
            AlyraSignError::CapacityExceeded => "a field exceeds its declared capacity",
        }
    }
}

} // verus!
