use solana_program::program_error::ProgramError;
use vstd::prelude::*;

verus! {

/// Why the registry refused a request. A refused request changes no record.
#[derive(Clone, Copy, Debug, PartialEq, Eq, Structural)]
pub enum ErrorCode {
    /// A supply reduction asked for more than the asset holds.
    AmountNotEnough,
    /// The network record already exists.
    AlreadyInitialized,
    /// The DID method is not the registry's own.
    InvalidDidMethod,
    /// The DID identifier is malformed.
    InvalidDidIdentifier,
    /// The metadata URI is longer than the registry stores.
    InvalidMetadataUri,
    /// The caller does not own the record it tries to change.
    Unauthorized,
    /// The owner cannot be its own guardian.
    RecoveryAccountIsOwner,
    /// The recovery account does not own the record.
    RecoveryAccountNotOwner,
    /// The identity already has as many guardians as it may hold.
    MaxRecoveryAccounts,
    /// The key is already a guardian of the identity.
    RecoveryAccountAlreadyExists,
    /// The key is not a guardian of the identity.
    RecoveryAccountNotFound,
}

/// Why a request that reads the ledger's clock did not go through.
#[derive(Debug)]
pub enum Failure {
    /// The registry refused the request.
    Rejected(ErrorCode),
    /// The runtime could not tell the time.
    Runtime(ProgramError),
}

} // verus!
