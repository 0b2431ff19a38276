use crate::domain::client::Client;
use crate::domain::client_id::ClientId;
use crate::domain::input_record::InputRecord;
use crate::domain::output_record::OutputRecord;
use crate::domain::transaction::Transaction;
use crate::domain::transaction_status::TransactionStatus;
use crate::domain::tx_id::TxId;
use crate::domain::tx_type::TxType;
use crate::error::client_error::ClientError;
use crate::error::service_error::ServiceError;
use crate::repository::client_repository::ClientRepository;
use crate::repository::transaction_repository::TransactionRepository;
use crate::service::ledger::Ledger;
use vstd::prelude::*;

verus! {

/// `rows` reports every account of `accounts` once, in some order.
pub open spec fn reports_accounts(accounts: Map<ClientId, Client>, rows: Seq<OutputRecord>) -> bool {
    &&& forall|i: int|
        0 <= i < rows.len() ==> accounts.contains_key((#[trigger] rows[i]).client)
            && OutputRecord::of(accounts[rows[i].client]) == rows[i]
    &&& forall|i: int, j: int|
        0 <= i < j < rows.len() ==> (#[trigger] rows[i]).client != (#[trigger] rows[j]).client
    &&& forall|id: ClientId| #[trigger]
        accounts.contains_key(id) ==> exists|i: int|
            0 <= i < rows.len() && (#[trigger] rows[i]).client == id
}

/// The processor, over a store of accounts and a store of transactions.
pub struct TransactionService<T, V> where T: ClientRepository, V: TransactionRepository {
    client_repository: T,
    transaction_repository: V,
}

impl<T, V> View for TransactionService<T, V> where T: ClientRepository, V: TransactionRepository {
    type V = Ledger;

    closed spec fn view(&self) -> Ledger {
        Ledger {
            accounts: self.client_repository.accounts(),
            transactions: self.transaction_repository.transactions(),
        }
    }
}

impl<T, V> TransactionService<T, V> where T: ClientRepository, V: TransactionRepository {
    pub fn new(client_repository: T, transaction_repository: V) -> (result: Self)
        ensures
            result@ == (Ledger {
                accounts: client_repository.accounts(),
                transactions: transaction_repository.transactions(),
            }),
    {
        Self { client_repository, transaction_repository }
    }

    /// Applies one event. A rejected event changes nothing and does not stand
    /// in the way of the events after it.
    pub fn process_transaction(&mut self, record: &InputRecord) -> (result: Result<
        Client,
        ServiceError,
    >)
        ensures
            final(self)@ == old(self)@.processed(*record).ledger,
            result == old(self)@.processed(*record).result,
            result is Err ==> final(self)@ == old(self)@,
    {
        match record.tx_type {
            TxType::Dispute | TxType::Resolve | TxType::Chargeback => {
                self.process_existing_transaction(record.tx_type, record.tx, record.client)
            },
            TxType::Deposit | TxType::Withdrawal => {
                match Transaction::try_from(record) {
                    Ok(transaction) => self.process_new_transaction(transaction),
                    Err(error) => Err(ServiceError::Transaction(error)),
                }
            },
        }
    }

    /// One row for each account, in no particular order.
    pub fn get_all_clients(&self) -> (result: Vec<OutputRecord>)
        ensures
            reports_accounts(self@.accounts, result@),
    {
        let clients = self.client_repository.get_all_clients();
        let mut rows: Vec<OutputRecord> = Vec::new();
        let mut i: usize = 0;
        while i < clients.len()
            invariant
                i <= clients.len(),
                rows@.len() == i,
                forall|k: int| 0 <= k < i ==> (#[trigger] rows@[k]) == OutputRecord::of(clients@[k]),
            decreases clients.len() - i,
        {
            rows.push(OutputRecord::from(&clients[i]));
            i = i + 1;
        }
        proof {
            let accounts = self@.accounts;
            assert forall|id: ClientId| #[trigger] accounts.contains_key(id) implies exists|k: int|
                0 <= k < rows@.len() && (#[trigger] rows@[k]).client == id by {
                let k = choose|k: int| 0 <= k < clients@.len() && (#[trigger] clients@[k]).id == id;
                assert(rows@[k].client == id);
            }
        }
        rows
    }

    fn process_new_transaction(&mut self, transaction: Transaction) -> (result: Result<
        Client,
        ServiceError,
    >)
        requires
            transaction.tx_type == TxType::Deposit || transaction.tx_type == TxType::Withdrawal,
        ensures
            final(self)@ == old(self)@.with_new_transaction(transaction).ledger,
            result == old(self)@.with_new_transaction(transaction).result,
    {
        let mut client = match transaction.tx_type {
            TxType::Deposit => {
                match self.get_or_create_client(&transaction.client_id) {
                    Ok(client) => client,
                    Err(error) => {
                        return Err(ServiceError::Client(error));
                    },
                }
            },
            _ => {
                match self.client_repository.get_client(&transaction.client_id) {
                    Ok(client) => client,
                    Err(error) => {
                        return Err(ServiceError::Client(error));
                    },
                }
            },
        };
        let change = match transaction.tx_type {
            TxType::Deposit => client.deposit(transaction.amount),
            _ => client.withdraw(transaction.amount),
        };
        if let Err(error) = change {
            return Err(ServiceError::Client(error));
        }
        let _ = self.client_repository.update_client(&client);
        let _ = self.transaction_repository.create_transaction(&transaction);
        assert(self@.accounts =~= old(self)@.accounts.insert(transaction.client_id, client));
        Ok(client)
    }

    fn process_existing_transaction(
        &mut self,
        tx_type: TxType,
        tx_id: TxId,
        client_id: ClientId,
    ) -> (result: Result<Client, ServiceError>)
        requires
            tx_type == TxType::Dispute || tx_type == TxType::Resolve || tx_type
                == TxType::Chargeback,
        ensures
            final(self)@ == old(self)@.with_existing_transaction(tx_type, tx_id, client_id).ledger,
            result == old(self)@.with_existing_transaction(tx_type, tx_id, client_id).result,
    {
        let mut client = match self.client_repository.get_client(&client_id) {
            Ok(client) => client,
            Err(error) => {
                return Err(ServiceError::Client(error));
            },
        };
        match tx_type {
            TxType::Dispute => {
                let transaction = match self.transaction_repository.get_transaction(&tx_id) {
                    Ok(transaction) => transaction,
                    Err(error) => {
                        return Err(ServiceError::Transaction(error));
                    },
                };
                if let Err(error) = client.dispute(transaction.amount) {
                    return Err(ServiceError::Client(error));
                }
                let mut updated_tx = transaction;
                updated_tx.status = TransactionStatus::Disputed;
                let _ = self.transaction_repository.update_transaction(&updated_tx);
            },
            TxType::Resolve => {
                let transaction = match self.transaction_repository.get_transaction_under_dispute(
                    &tx_id,
                ) {
                    Ok(transaction) => transaction,
                    Err(error) => {
                        return Err(ServiceError::Transaction(error));
                    },
                };
                if let Err(error) = client.resolve(transaction.amount) {
                    return Err(ServiceError::Client(error));
                }
            },
            _ => {
                let transaction = match self.transaction_repository.get_transaction_under_dispute(
                    &tx_id,
                ) {
                    Ok(transaction) => transaction,
                    Err(error) => {
                        return Err(ServiceError::Transaction(error));
                    },
                };
                if let Err(error) = client.chargeback(transaction.amount) {
                    return Err(ServiceError::Client(error));
                }
            },
        }
        let _ = self.client_repository.update_client(&client);
        Ok(client)
    }

    /// The account of `id`; where the client is unknown, an account is opened
    /// and stored first.
    fn get_or_create_client(&mut self, id: &ClientId) -> (result: Result<Client, ClientError>)
        ensures
            result == Ok::<Client, ClientError>(old(self)@.account_or_opened(*id)),
            final(self)@.transactions == old(self)@.transactions,
            final(self)@.accounts == if old(self)@.accounts.contains_key(*id) {
                old(self)@.accounts
            } else {
                old(self)@.accounts.insert(*id, Client::opened(*id))
            },
            result matches Ok(client) ==> client.id == *id,
    {
        match self.client_repository.get_client(id) {
            Ok(client) => Ok(client),
            Err(_) => {
                let client = Client::new(*id);
                self.client_repository.create_client(&client)
            },
        }
    }
}

} // verus!
