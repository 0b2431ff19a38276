use crate::domain::tx_id::TxId;
use vstd::prelude::*;

verus! {

/// Failures that concern a transaction.
#[derive(Debug, Clone, Copy, PartialEq, Eq, Structural)]
pub enum TransactionError {
    /// No transaction has this identifier.
    NotFound { id: TxId },
    /// The transaction exists but no dispute is open on it.
    NotUnderDispute { id: TxId },
    /// A deposit or withdrawal came without an amount.
    InvalidTransaction { id: TxId },
}

} // verus!
