use crate::domain::client_id::ClientId;
use crate::domain::tx_type::TxType;
use vstd::prelude::*;

verus! {

/// Failures that concern an account.
#[derive(Debug, Clone, Copy, PartialEq, Eq, Structural)]
pub enum ClientError {
    /// No account exists for the client.
    NotFound { id: ClientId },
    /// The account's funds do not allow the operation named by `tx_type`.
    FundsUpdateError { id: ClientId, tx_type: TxType },
}

} // verus!
