//! Why a creation request is turned down.

use vstd::prelude::*;

verus! {

/// The ways in which creating a record can fail. Each is final for the request
/// that met it, and none leaves a trace in the ledger or on the funding party.
#[derive(Clone, Copy, Debug, PartialEq, Eq, Structural)]
pub enum VotingError {
    /// The derived address already holds a record.
    AlreadyExists,
    /// The poll that a candidate is meant for is not in the ledger: its derived
    /// address, if it has one, holds no poll record with its id.
    PollNotFound,
    /// A description or a name is longer than the storage reserved for it.
    FieldTooLong,
    /// The funding party did not sign for the storage cost.
    AuthorizationFailed,
    /// The funding party cannot pay for the storage.
    AllocationFailed,
    /// No address can be derived for the record: the search for a bump seed
    /// found none.
    DerivationFailed,
}

} // verus!
