//! Errors that the escrow returns to callers.

use vstd::prelude::*;

verus! {

/// Errors that the RemitFlow contract can return to callers. Each variant has
/// a stable numeric code, given by [`Error::code`].
#[derive(Clone, Copy, Debug, PartialEq, Eq, Structural)]
pub enum Error {
    /// The contract has already been initialized with an admin.
    AlreadyInitialized,
    /// The contract has not been initialized yet.
    NotInitialized,
    /// No transfer exists for the supplied id.
    TransferNotFound,
    /// The supplied amount was not strictly positive.
    InvalidAmount,
    /// The supplied expiry is not in the future.
    InvalidExpiry,
    /// The transfer counter would overflow its u64 range.
    CounterOverflow,
    /// The caller is not authorized to act on this transfer.
    Unauthorized,
    /// The transfer is not in the pending state.
    NotPending,
    /// The transfer has passed its expiry timestamp.
    Expired,
    /// The transfer has not yet reached its expiry timestamp.
    NotExpired,
    /// The sender and recipient must be different addresses.
    SameParty,
    /// The supplied amount exceeds the maximum allowed per transfer.
    AmountTooLarge,
    /// The contract would exceed the global escrow cap.
    EscrowCapReached,
    /// The contract is paused and cannot accept new transfers.
    ContractPaused,
    /// The supplied expiry is further out than the maximum allowed window.
    ExpiryTooFar,
    /// The caller is not on the privileged callers allowlist.
    CallerNotAllowed,
    /// `accept_admin` was called but no pending admin transfer has been initiated.
    NoPendingAdmin,
    /// The supplied address is the contract's own address where an external
    /// party address is required.
    InvalidAddress,
    /// An account exceeded its allowed number of operations.
    AccountLimitReached,
    /// A privileged call was attempted before the cooldown period elapsed.
    CooldownNotElapsed,
    /// The contract's token balance is less than its tracked escrow
    /// liability, or the lifetime totals do not balance.
    SupplyInvariantViolation,
    /// The number of operations in a batch exceeds `MAX_BATCH_SIZE`.
    BatchTooLarge,
    /// The supplied idempotency key is zero and cannot identify a batch.
    InvalidBatchId,
    /// An idempotency key was reused with a different batch payload.
    BatchIdConflict,
    /// An escrow total would leave its range, or a release exceeds the
    /// pending liability.
    AccountingOverflow,
    /// The upgrade baseline artifact has already been recorded.
    UpgradeBaselineAlreadySet,
    /// The expected artifact does not match the recorded one, or none is recorded.
    UpgradeArtifactMismatch,
    /// The replacement artifact equals the recorded one.
    UpgradeArtifactUnchanged,
    /// The release number is not the next one in sequence.
    UpgradeVersionInvalid,
    /// A versioned caller update does not carry the next registry version.
    StaleCallerUpdate,
    /// The caller registry version cannot be advanced further.
    CallerUpdateVersionOverflow,
}

/// The numeric code under which each error is reported.
pub open spec fn error_code(e: Error) -> u32 {
    match e {
        Error::AlreadyInitialized => 1,
        Error::NotInitialized => 2,
        Error::TransferNotFound => 3,
        Error::InvalidAmount => 4,
        Error::InvalidExpiry => 5,
        Error::CounterOverflow => 6,
        Error::Unauthorized => 7,
        Error::NotPending => 8,
        Error::Expired => 9,
        Error::NotExpired => 10,
        Error::SameParty => 11,
        Error::AmountTooLarge => 12,
        Error::ContractPaused => 13,
        Error::ExpiryTooFar => 14,
        Error::EscrowCapReached => 15,
        Error::CallerNotAllowed => 16,
        Error::NoPendingAdmin => 17,
        Error::InvalidAddress => 18,
        Error::AccountLimitReached => 19,
        Error::SupplyInvariantViolation => 20,
        Error::CooldownNotElapsed => 21,
        Error::BatchTooLarge => 22,
        Error::AccountingOverflow => 23,
        Error::InvalidBatchId => 24,
        Error::BatchIdConflict => 25,
        Error::UpgradeBaselineAlreadySet => 26,
        Error::UpgradeArtifactMismatch => 27,
        Error::UpgradeArtifactUnchanged => 28,
        Error::UpgradeVersionInvalid => 29,
        Error::StaleCallerUpdate => 30,
        Error::CallerUpdateVersionOverflow => 31,
    }
}

impl Error {
    /// The numeric code under which this error is reported.
    pub fn code(&self) -> (r: u32)
        ensures
            r == error_code(*self),
    {
        match self {
            Error::AlreadyInitialized => 1,
            Error::NotInitialized => 2,
            Error::TransferNotFound => 3,
            Error::InvalidAmount => 4,
            Error::InvalidExpiry => 5,
            Error::CounterOverflow => 6,
            Error::Unauthorized => 7,
            Error::NotPending => 8,
            Error::Expired => 9,
            Error::NotExpired => 10,
            Error::SameParty => 11,
            Error::AmountTooLarge => 12,
            Error::ContractPaused => 13,
            Error::ExpiryTooFar => 14,
            Error::EscrowCapReached => 15,
            Error::CallerNotAllowed => 16,
            Error::NoPendingAdmin => 17,
            Error::InvalidAddress => 18,
            Error::AccountLimitReached => 19,
            Error::SupplyInvariantViolation => 20,
            Error::CooldownNotElapsed => 21,
            Error::BatchTooLarge => 22,
            Error::AccountingOverflow => 23,
            Error::InvalidBatchId => 24,
            Error::BatchIdConflict => 25,
            Error::UpgradeBaselineAlreadySet => 26,
            Error::UpgradeArtifactMismatch => 27,
            Error::UpgradeArtifactUnchanged => 28,
            Error::UpgradeVersionInvalid => 29,
            Error::StaleCallerUpdate => 30,
            Error::CallerUpdateVersionOverflow => 31,
        }
    }
}

/// Distinct errors are reported under distinct codes.
pub proof fn lemma_error_codes_distinct(a: Error, b: Error)
    ensures
        error_code(a) == error_code(b) ==> a == b,
{
}

} // verus!
