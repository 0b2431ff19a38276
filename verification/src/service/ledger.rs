//! The state machine of the engine as mathematics: the state is the accounts
//! and the transactions, and an event takes a state to the next one.

use crate::domain::client::Client;
use crate::domain::client_id::ClientId;
use crate::domain::client_status::ClientStatus;
use crate::domain::input_record::InputRecord;
use crate::domain::transaction::Transaction;
use crate::domain::transaction_status::TransactionStatus;
use crate::domain::tx_id::TxId;
use crate::domain::tx_type::TxType;
use crate::error::client_error::ClientError;
use crate::error::service_error::ServiceError;
use crate::error::transaction_error::TransactionError;
use crate::repository::client_repository::found_client;
use crate::repository::transaction_repository::{found_disputed_transaction, found_transaction};
use vstd::prelude::*;

verus! {

/// All that the engine keeps: the accounts by client and the transactions by
/// identifier.
pub struct Ledger {
    pub accounts: Map<ClientId, Client>,
    pub transactions: Map<TxId, Transaction>,
}

/// What an event leads to: the state after it, and the account that it
/// changed or the reason why it was rejected.
pub struct Outcome {
    pub ledger: Ledger,
    pub result: Result<Client, ServiceError>,
}

impl Ledger {
    /// The state before any event.
    pub open spec fn empty() -> Ledger {
        Ledger { accounts: Map::empty(), transactions: Map::empty() }
    }

    /// The event is rejected with `error` and changes nothing.
    pub open spec fn rejected(self, error: ServiceError) -> Outcome {
        Outcome { ledger: self, result: Err(error) }
    }

    /// The account of `id`, or a newly opened one where the client is unknown.
    pub open spec fn account_or_opened(self, id: ClientId) -> Client {
        if self.accounts.contains_key(id) {
            self.accounts[id]
        } else {
            Client::opened(id)
        }
    }

    /// What `transaction` makes of its client's account. A deposit opens the
    /// account of an unknown client; a withdrawal needs the account to exist.
    pub open spec fn settled(self, transaction: Transaction) -> Result<Client, ClientError> {
        if transaction.tx_type == TxType::Deposit {
            self.account_or_opened(transaction.client_id).deposited(transaction.amount)
        } else {
            match found_client(self.accounts, transaction.client_id) {
                Ok(client) => client.withdrawn(transaction.amount),
                Err(error) => Err(error),
            }
        }
    }

    /// A deposit or withdrawal is applied: the account changes and the
    /// transaction is recorded, or the event is rejected.
    pub open spec fn with_new_transaction(self, transaction: Transaction) -> Outcome {
        match self.settled(transaction) {
            Ok(client) => Outcome {
                ledger: Ledger {
                    accounts: self.accounts.insert(transaction.client_id, client),
                    transactions: self.transactions.insert(transaction.id, transaction),
                },
                result: Ok(client),
            },
            Err(error) => self.rejected(ServiceError::Client(error)),
        }
    }

    /// The transaction that a dispute, resolve or chargeback refers to. A
    /// dispute takes any transaction; the other two only one under dispute.
    pub open spec fn referred(self, tx_type: TxType, tx_id: TxId) -> Result<
        Transaction,
        TransactionError,
    > {
        if tx_type == TxType::Dispute {
            found_transaction(self.transactions, tx_id)
        } else {
            found_disputed_transaction(self.transactions, tx_id)
        }
    }

    /// A dispute, resolve or chargeback is applied to the account of
    /// `client_id` with the amount of the transaction `tx_id`. Only a dispute
    /// changes the transaction: it becomes disputed.
    pub open spec fn with_existing_transaction(
        self,
        tx_type: TxType,
        tx_id: TxId,
        client_id: ClientId,
    ) -> Outcome {
        match found_client(self.accounts, client_id) {
            Err(error) => self.rejected(ServiceError::Client(error)),
            Ok(client) => match self.referred(tx_type, tx_id) {
                Err(error) => self.rejected(ServiceError::Transaction(error)),
                Ok(transaction) => {
                    let change = match tx_type {
                        TxType::Dispute => client.disputed(transaction.amount),
                        TxType::Resolve => client.resolved(transaction.amount),
                        _ => client.charged_back(transaction.amount),
                    };
                    match change {
                        Err(error) => self.rejected(ServiceError::Client(error)),
                        Ok(updated) => Outcome {
                            ledger: Ledger {
                                accounts: self.accounts.insert(client_id, updated),
                                transactions: if tx_type == TxType::Dispute {
                                    self.transactions.insert(
                                        tx_id,
                                        Transaction {
                                            status: TransactionStatus::Disputed,
                                            ..transaction
                                        },
                                    )
                                } else {
                                    self.transactions
                                },
                            },
                            result: Ok(updated),
                        },
                    }
                },
            },
        }
    }

    /// What one event makes of the state.
    pub open spec fn processed(self, record: InputRecord) -> Outcome {
        match record.tx_type {
            TxType::Deposit | TxType::Withdrawal => match Transaction::of_record(record) {
                Ok(transaction) => self.with_new_transaction(transaction),
                Err(error) => self.rejected(ServiceError::Transaction(error)),
            },
            _ => self.with_existing_transaction(record.tx_type, record.tx, record.client),
        }
    }

    /// The state after the events of `records`, taken in order.
    pub open spec fn after(self, records: Seq<InputRecord>) -> Ledger
        decreases records.len(),
    {
        if records.len() == 0 {
            self
        } else {
            self.after(records.drop_last()).processed(records.last()).ledger
        }
    }

    /// In every account the total is the sum of available and held funds.
    pub open spec fn all_balanced(self) -> bool {
        forall|id: ClientId| #[trigger]
            self.accounts.contains_key(id) ==> self.accounts[id].balanced()
    }

    /// The client has an account and it is locked.
    pub open spec fn has_locked(self, id: ClientId) -> bool {
        self.accounts.contains_key(id) && self.accounts[id].status == ClientStatus::Locked
    }
}

} // verus!
