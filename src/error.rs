use vstd::prelude::*;

verus! {

/// Failure codes of the escrow engine.
#[derive(Copy, Clone, Debug, PartialEq, Eq, Structural)]
pub enum ContractError {
    AlreadyInitialized,
    AdminNotSet,
    NotAuthorized,
    TransactionNotFound,
    InvalidAmount,
    InvalidDeadline,
    InvalidConsensusRule,
    DuplicateParties,
    ArbitratorRequired,
    TransactionNotFunded,
    TransactionAlreadyFunded,
    TransactionExpired,
    TransactionAlreadyReleased,
    TransactionAlreadyRefunded,
    InvalidTransactionStatus,
    NotAuthorizedParty,
    AgreementAlreadySubmitted,
    ConsensusNotReached,
    ConsensusRejected,
    InsufficientFunds,
    TransferFailed,
    InvalidTimestamp,
    StorageError,
}

impl ContractError {
    /// The stable numeric code of each error.
    pub open spec fn code(self) -> u32 {
        match self {
            ContractError::AlreadyInitialized => 1,
            ContractError::AdminNotSet => 2,
            ContractError::NotAuthorized => 3,
            ContractError::TransactionNotFound => 10,
            ContractError::InvalidAmount => 11,
            ContractError::InvalidDeadline => 12,
            ContractError::InvalidConsensusRule => 13,
            ContractError::DuplicateParties => 14,
            ContractError::ArbitratorRequired => 15,
            ContractError::TransactionNotFunded => 20,
            ContractError::TransactionAlreadyFunded => 21,
            ContractError::TransactionExpired => 22,
            ContractError::TransactionAlreadyReleased => 23,
            ContractError::TransactionAlreadyRefunded => 24,
            ContractError::InvalidTransactionStatus => 25,
            ContractError::NotAuthorizedParty => 30,
            ContractError::AgreementAlreadySubmitted => 31,
            ContractError::ConsensusNotReached => 32,
            ContractError::ConsensusRejected => 33,
            ContractError::InsufficientFunds => 40,
            ContractError::TransferFailed => 41,
            ContractError::InvalidTimestamp => 50,
            ContractError::StorageError => 51,
        }
    }

    /// Numeric code of the error, as published to callers.
    pub fn as_u32(&self) -> (r: u32)
        ensures
            r == self.code(),
    {
        match self {
            ContractError::AlreadyInitialized => 1,
            ContractError::AdminNotSet => 2,
            ContractError::NotAuthorized => 3,
            ContractError::TransactionNotFound => 10,
            ContractError::InvalidAmount => 11,
            ContractError::InvalidDeadline => 12,
            ContractError::InvalidConsensusRule => 13,
            ContractError::DuplicateParties => 14,
            ContractError::ArbitratorRequired => 15,
            ContractError::TransactionNotFunded => 20,
            ContractError::TransactionAlreadyFunded => 21,
            ContractError::TransactionExpired => 22,
            ContractError::TransactionAlreadyReleased => 23,
            ContractError::TransactionAlreadyRefunded => 24,
            ContractError::InvalidTransactionStatus => 25,
            ContractError::NotAuthorizedParty => 30,
            ContractError::AgreementAlreadySubmitted => 31,
            ContractError::ConsensusNotReached => 32,
            ContractError::ConsensusRejected => 33,
            ContractError::InsufficientFunds => 40,
            ContractError::TransferFailed => 41,
            ContractError::InvalidTimestamp => 50,
            ContractError::StorageError => 51,
        }
    }
}

} // verus!
