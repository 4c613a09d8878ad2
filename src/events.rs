use vstd::prelude::*;

use crate::types::{ConsensusRule, ConsensusTransaction, TransactionStatus};

verus! {

/// Notice that a vote met the record's quorum.
#[derive(Clone, Copy, Debug, PartialEq, Eq, Structural)]
pub struct ConsensusReachedEvent {
    pub transaction_id: u64,
    pub timestamp: u64,
    pub consensus_type: ConsensusRule,
}

/// Notice that a call moved a record from one status to another.
#[derive(Clone, Copy, Debug, PartialEq, Eq, Structural)]
pub struct TransactionStatusChangedEvent {
    pub transaction_id: u64,
    pub old_status: TransactionStatus,
    pub new_status: TransactionStatus,
    pub timestamp: u64,
}

/// Notice that a record was settled after its deadline.
#[derive(Clone, Copy, Debug, PartialEq, Eq, Structural)]
pub struct TransactionExpiredEvent {
    pub transaction_id: u64,
    pub deadline: u64,
    pub timestamp: u64,
}

/// The consensus notice for a vote that took the record from `before` to its present
/// status: there is one exactly when the vote moved it from `Funded` to `ConsensusReached`.
pub fn consensus_reached_event(
    before: TransactionStatus,
    transaction: &ConsensusTransaction,
    timestamp: u64,
) -> (r: Option<ConsensusReachedEvent>)
    ensures
        r == if before == TransactionStatus::Funded && transaction.status
            == TransactionStatus::ConsensusReached {
            Some(
                ConsensusReachedEvent {
                    transaction_id: transaction.transaction_id,
                    timestamp,
                    consensus_type: transaction.consensus_rule,
                },
            )
        } else {
            None
        },
{
    if before == TransactionStatus::Funded && transaction.status
        == TransactionStatus::ConsensusReached {
        Some(
            ConsensusReachedEvent {
                transaction_id: transaction.transaction_id,
                timestamp,
                consensus_type: transaction.consensus_rule,
            },
        )
    } else {
        None
    }
}

/// The status notice for a call that found the record in status `before`: there is
/// one exactly when the status is now different.
pub fn status_changed_event(
    before: TransactionStatus,
    transaction: &ConsensusTransaction,
    timestamp: u64,
) -> (r: Option<TransactionStatusChangedEvent>)
    ensures
        r == if before != transaction.status {
            Some(
                TransactionStatusChangedEvent {
                    transaction_id: transaction.transaction_id,
                    old_status: before,
                    new_status: transaction.status,
                    timestamp,
                },
            )
        } else {
            None
        },
{
    if before != transaction.status {
        Some(
            TransactionStatusChangedEvent {
                transaction_id: transaction.transaction_id,
                old_status: before,
                new_status: transaction.status,
                timestamp,
            },
        )
    } else {
        None
    }
}

/// The expiry notice for a record settled at `timestamp`.
pub fn expired_event(transaction: &ConsensusTransaction, timestamp: u64) -> (r:
    TransactionExpiredEvent)
    ensures
        r == (TransactionExpiredEvent {
            transaction_id: transaction.transaction_id,
            deadline: transaction.deadline,
            timestamp,
        }),
{
    TransactionExpiredEvent {
        transaction_id: transaction.transaction_id,
        deadline: transaction.deadline,
        timestamp,
    }
}

} // verus!
