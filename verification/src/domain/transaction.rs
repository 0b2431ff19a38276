use crate::domain::client_id::ClientId;
use crate::domain::input_record::InputRecord;
use crate::domain::transaction_status::TransactionStatus;
use crate::domain::tx_id::TxId;
use crate::domain::tx_type::TxType;
use crate::error::transaction_error::TransactionError;
use vstd::prelude::*;
use vstd::std_specs::convert::TryFromSpecImpl;

verus! {

/// A deposit or withdrawal that was applied, and whether it is under dispute.
#[derive(Debug, Clone, Copy, PartialEq, Eq, Structural)]
pub struct Transaction {
    pub id: TxId,
    pub client_id: ClientId,
    pub amount: i64,
    pub tx_type: TxType,
    pub status: TransactionStatus,
}

impl Transaction {
    /// The transaction as it is first recorded: confirmed, not disputed.
    pub open spec fn confirmed(id: TxId, client_id: ClientId, amount: i64, tx_type: TxType) -> Transaction {
        Transaction { id, client_id, amount, tx_type, status: TransactionStatus::Confirmed }
    }

    /// The transaction that `record` asks for, if the record carries an amount.
    pub open spec fn of_record(record: InputRecord) -> Result<Transaction, TransactionError> {
        match record.amount {
            Some(amount) => Ok(
                Transaction::confirmed(record.tx, record.client, amount, record.tx_type),
            ),
            None => Err(TransactionError::InvalidTransaction { id: record.tx }),
        }
    }

    pub fn new(id: TxId, client_id: ClientId, amount: i64, tx_type: TxType) -> (result: Self)
        ensures
            result == Transaction::confirmed(id, client_id, amount, tx_type),
    {
        Self { id, client_id, amount, tx_type, status: TransactionStatus::Confirmed }
    }

    pub fn is_under_dispute(&self) -> (result: bool)
        ensures
            result == (self.status == TransactionStatus::Disputed),
    {
        self.status == TransactionStatus::Disputed
    }
}

impl<'a> TryFrom<&'a InputRecord> for Transaction {
    type Error = TransactionError;

    fn try_from(record: &'a InputRecord) -> (result: Result<Self, Self::Error>) {
        match record.amount {
            Some(amount) => Ok(Transaction::new(record.tx, record.client, amount, record.tx_type)),
            None => Err(TransactionError::InvalidTransaction { id: record.tx }),
        }
    }
}

impl<'a> TryFromSpecImpl<&'a InputRecord> for Transaction {
    open spec fn obeys_try_from_spec() -> bool {
        true
    }

    open spec fn try_from_spec(record: &'a InputRecord) -> Result<Self, Self::Error> {
        Transaction::of_record(*record)
    }
}

} // verus!
