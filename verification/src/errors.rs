//! The failures an operation of this state machine can report.

use vstd::prelude::*;

verus! {

/// Every way an operation can fail. The first four are the program's own
/// checks; the last two surface the record layer's structural failures
/// (a record already present where a new one was to be created, or a
/// required record missing). Each operation aborts with no effect when it
/// reports one of these.
#[derive(Clone, Copy, Debug, PartialEq, Eq, Structural)]
pub enum CityChestsError {
    /// The caller is not the administrator recorded in the configuration.
    Unauthorized,
    /// The token account's owner is not the configured vault.
    WrongVaultOwner,
    /// The token account holds a different asset than the asserted one.
    WrongMint,
    /// The token account's balance is not exactly one unit.
    WrongAmount,
    /// A record already exists where a new one was to be created.
    RecordAlreadyExists,
    /// A record the operation needs does not exist.
    RecordNotFound,
}

} // verus!
