use crate::domain::client_id::ClientId;
use crate::domain::transaction::Transaction;
use crate::domain::transaction_status::TransactionStatus;
use crate::domain::tx_id::TxId;
use crate::domain::tx_type::TxType;
use crate::error::transaction_error::TransactionError;
use std::collections::HashMap;
use vstd::prelude::*;

verus! {

/// What a lookup of `id` in `transactions` gives.
pub open spec fn found_transaction(
    transactions: Map<TxId, Transaction>,
    id: TxId,
) -> Result<Transaction, TransactionError> {
    if transactions.contains_key(id) {
        Ok(transactions[id])
    } else {
        Err(TransactionError::NotFound { id })
    }
}

/// What a lookup of `id` gives when only a transaction under dispute will do.
pub open spec fn found_disputed_transaction(
    transactions: Map<TxId, Transaction>,
    id: TxId,
) -> Result<Transaction, TransactionError> {
    if !transactions.contains_key(id) {
        Err(TransactionError::NotFound { id })
    } else if transactions[id].status != TransactionStatus::Disputed {
        Err(TransactionError::NotUnderDispute { id })
    } else {
        Ok(transactions[id])
    }
}

/// A key-value store of transactions. A write never fails and replaces what
/// stood under the transaction's identifier; nothing is ever removed.
pub trait TransactionRepository {
    /// The transactions in the store, each under its own identifier.
    spec fn transactions(&self) -> Map<TxId, Transaction>;

    fn get_transaction(&self, id: &TxId) -> (result: Result<Transaction, TransactionError>)
        ensures
            result == found_transaction(self.transactions(), *id),
            result matches Ok(transaction) ==> transaction.id == *id,
    ;

    fn get_transaction_under_dispute(&self, id: &TxId) -> (result: Result<
        Transaction,
        TransactionError,
    >)
        ensures
            result == found_disputed_transaction(self.transactions(), *id),
            result matches Ok(transaction) ==> transaction.id == *id,
    ;

    fn create_transaction(&mut self, transaction: &Transaction) -> (result: Result<
        Transaction,
        TransactionError,
    >)
        ensures
            result == Ok::<Transaction, TransactionError>(*transaction),
            final(self).transactions() == old(self).transactions().insert(
                transaction.id,
                *transaction,
            ),
    ;

    fn update_transaction(&mut self, transaction: &Transaction) -> (result: Result<
        Transaction,
        TransactionError,
    >)
        ensures
            result == Ok::<Transaction, TransactionError>(*transaction),
            final(self).transactions() == old(self).transactions().insert(
                transaction.id,
                *transaction,
            ),
    ;
}

/// What the store keeps of a transaction. The transaction's identifier is the
/// key that it is kept under.
#[derive(Debug, Clone, Copy)]
struct Entry {
    client_id: ClientId,
    amount: i64,
    tx_type: TxType,
    status: TransactionStatus,
}

impl Entry {
    spec fn transaction(self, id: TxId) -> Transaction {
        Transaction {
            id,
            client_id: self.client_id,
            amount: self.amount,
            tx_type: self.tx_type,
            status: self.status,
        }
    }

    fn of(transaction: &Transaction) -> (result: Self)
        ensures
            result.transaction(transaction.id) == *transaction,
    {
        Self {
            client_id: transaction.client_id,
            amount: transaction.amount,
            tx_type: transaction.tx_type,
            status: transaction.status,
        }
    }

    fn to_transaction(&self, id: TxId) -> (result: Transaction)
        ensures
            result == self.transaction(id),
    {
        Transaction {
            id,
            client_id: self.client_id,
            amount: self.amount,
            tx_type: self.tx_type,
            status: self.status,
        }
    }
}

/// The store in memory.
pub struct TransactionRepositoryImpl {
    transactions: HashMap<u32, Entry>,
}

impl TransactionRepositoryImpl {
    pub fn new() -> (result: Self)
        ensures
            result.transactions() == Map::<TxId, Transaction>::empty(),
    {
        let result = Self { transactions: HashMap::new() };
        assert(result.transactions() =~= Map::<TxId, Transaction>::empty());
        result
    }
}

impl TransactionRepository for TransactionRepositoryImpl {
    closed spec fn transactions(&self) -> Map<TxId, Transaction> {
        Map::new(
            |id: TxId| self.transactions@.contains_key(id.0),
            |id: TxId| self.transactions@[id.0].transaction(id),
        )
    }

    fn get_transaction(&self, id: &TxId) -> (result: Result<Transaction, TransactionError>) {
        match self.transactions.get(&id.0) {
            Some(entry) => Ok(entry.to_transaction(*id)),
            None => Err(TransactionError::NotFound { id: *id }),
        }
    }

    fn get_transaction_under_dispute(&self, id: &TxId) -> (result: Result<
        Transaction,
        TransactionError,
    >) {
        match self.transactions.get(&id.0) {
            None => Err(TransactionError::NotFound { id: *id }),
            Some(entry) => {
                let transaction = entry.to_transaction(*id);
                if transaction.is_under_dispute() {
                    Ok(transaction)
                } else {
                    Err(TransactionError::NotUnderDispute { id: *id })
                }
            },
        }
    }

    fn create_transaction(&mut self, transaction: &Transaction) -> (result: Result<
        Transaction,
        TransactionError,
    >) {
        self.transactions.insert(transaction.id.0, Entry::of(transaction));
        assert(self.transactions() =~= old(self).transactions().insert(
            transaction.id,
            *transaction,
        ));
        Ok(*transaction)
    }

    fn update_transaction(&mut self, transaction: &Transaction) -> (result: Result<
        Transaction,
        TransactionError,
    >) {
        self.transactions.insert(transaction.id.0, Entry::of(transaction));
        assert(self.transactions() =~= old(self).transactions().insert(
            transaction.id,
            *transaction,
        ));
        Ok(*transaction)
    }
}

} // verus!
