//! The library's errors.
use vstd::prelude::*;
use ::firestore::errors::FirestoreError;

verus! {

/// Makes `firestore::errors::FirestoreError` usable in signatures; its
/// contents stay opaque.
#[verifier::external_type_specification]
#[verifier::external_body]
pub struct ExFirestoreError(::firestore::errors::FirestoreError);

/// What can go wrong while obtaining, keeping or giving back a slot.
#[derive(Debug)]
pub enum Error {
    /// The Firestore client reported an error.
    Firestore(FirestoreError),
    /// Every lease slot was tried and all of them are held.
    LeaseSlotsExhausted,
    /// The lease was taken over or revoked by someone else.
    LeaseLost,
    /// Renewals kept timing out until the lease ran out.
    LeaseRenewalTimeout,
    /// The machine id record of the given slot does not exist.
    MissedMachineIDRecord(u16),
    /// Every machine id was tried and all of them are leased.
    MachineIDsExhausted,
}

impl Error {
    /// Whether this error says that the lease itself is gone.
    pub fn is_lease_lost_error(&self) -> (lost: bool)
        ensures
            lost == (*self is LeaseLost),
    {
        match self {
            Error::LeaseLost => true,
            _ => false,
        }
    }
}

/// The library's result type.
pub type Result<T> = std::result::Result<T, Error>;

} // verus!
