//! The ways an operation can be refused.

use vstd::prelude::*;

verus! {

/// Why an operation was refused. A refused operation changes no record and
/// calls for no ledger transfer.
#[derive(Clone, Copy, Debug, PartialEq, Eq, Structural)]
pub enum ErrorCode {
    /// The stake has already been paid out.
    AlreadyClaimed,
    /// The lock on the stake has not run out yet.
    StakingPeriodNotComplete,
    /// The burn on a payment would exceed the payment itself.
    ArithmeticUnderflow,
    /// The cumulative burn counter would pass its largest value.
    Overflow,
    /// The record to be created exists already.
    AlreadyInitialized,
    /// The burn vault of a payment is not the vault the configuration names.
    VaultMismatch,
    /// The ledger did not carry out a transfer the operation called for.
    TransferFailed,
}

/// The classes of refusal, by what a caller can do about them.
#[derive(Clone, Copy, Debug, PartialEq, Eq, Structural)]
pub enum ErrorKind {
    /// The request does not fit the current state of a record.
    PreconditionViolation,
    /// A fee or counter computation left the range of its type.
    ArithmeticFault,
    /// The external ledger rejected a transfer.
    ExternalTransferFault,
    /// A record was initialized a second time.
    DuplicateInitialization,
}

impl ErrorCode {
    /// The class an error belongs to.
    pub open spec fn kind_of(self) -> ErrorKind {
        match self {
            ErrorCode::AlreadyClaimed => ErrorKind::PreconditionViolation,
            ErrorCode::StakingPeriodNotComplete => ErrorKind::PreconditionViolation,
            ErrorCode::VaultMismatch => ErrorKind::PreconditionViolation,
            ErrorCode::ArithmeticUnderflow => ErrorKind::ArithmeticFault,
            ErrorCode::Overflow => ErrorKind::ArithmeticFault,
            ErrorCode::TransferFailed => ErrorKind::ExternalTransferFault,
            ErrorCode::AlreadyInitialized => ErrorKind::DuplicateInitialization,
        }
    }

    /// The text shown for an error.
    pub open spec fn message_of(self) -> Seq<char> {
        match self {
            ErrorCode::AlreadyClaimed => "Energy rebate already claimed"@,
            ErrorCode::StakingPeriodNotComplete => "Staking period not complete"@,
            ErrorCode::ArithmeticUnderflow => "Burn amount exceeds payment amount"@,
            ErrorCode::Overflow => "Burn counter overflow"@,
            ErrorCode::AlreadyInitialized => "Record already initialized"@,
            ErrorCode::VaultMismatch => "Burn vault does not match configured vault"@,
            ErrorCode::TransferFailed => "Ledger transfer failed"@,
        }
    }

    /// The class an error belongs to.
    pub fn kind(&self) -> (kind: ErrorKind)
        ensures
            kind == self.kind_of(),
    {
        match self {
            ErrorCode::AlreadyClaimed => ErrorKind::PreconditionViolation,
            ErrorCode::StakingPeriodNotComplete => ErrorKind::PreconditionViolation,
            ErrorCode::VaultMismatch => ErrorKind::PreconditionViolation,
            ErrorCode::ArithmeticUnderflow => ErrorKind::ArithmeticFault,
            ErrorCode::Overflow => ErrorKind::ArithmeticFault,
            ErrorCode::TransferFailed => ErrorKind::ExternalTransferFault,
            ErrorCode::AlreadyInitialized => ErrorKind::DuplicateInitialization,
        }
    }

    /// The text shown for an error.
    pub fn message(&self) -> (text: String)
        ensures
            text@ == self.message_of(),
    {
        match self {
            ErrorCode::AlreadyClaimed => "Energy rebate already claimed".to_owned(),
            ErrorCode::StakingPeriodNotComplete => "Staking period not complete".to_owned(),
            ErrorCode::ArithmeticUnderflow => "Burn amount exceeds payment amount".to_owned(),
            ErrorCode::Overflow => "Burn counter overflow".to_owned(),
            ErrorCode::AlreadyInitialized => "Record already initialized".to_owned(),
            ErrorCode::VaultMismatch => "Burn vault does not match configured vault".to_owned(),
            ErrorCode::TransferFailed => "Ledger transfer failed".to_owned(),
        }
    }
}

} // verus!
