use crate::error::client_error::ClientError;
use crate::error::transaction_error::TransactionError;
use vstd::prelude::*;

verus! {

/// Why an event was not applied: the account's reason or the transaction's.
#[derive(Debug, Clone, Copy, PartialEq, Eq, Structural)]
pub enum ServiceError {
    Client(ClientError),
    Transaction(TransactionError),
}

} // verus!
