use crate::domain::client_id::ClientId;
use crate::domain::tx_id::TxId;
use crate::domain::tx_type::TxType;
use vstd::prelude::*;

verus! {

/// One event of the stream. The amount counts the smallest currency unit and
/// is present on deposits and withdrawals.
#[derive(Debug, Clone, Copy, PartialEq, Eq, Structural)]
pub struct InputRecord {
    pub tx_type: TxType,
    pub client: ClientId,
    pub tx: TxId,
    pub amount: Option<i64>,
}

} // verus!
