//! What holds of the engine whatever the events are.

use crate::domain::client::Client;
use crate::domain::client_id::ClientId;
use crate::domain::client_status::ClientStatus;
use crate::domain::input_record::InputRecord;
use crate::domain::transaction_status::TransactionStatus;
use crate::domain::tx_id::TxId;
use crate::domain::tx_type::TxType;
use crate::error::client_error::ClientError;
use crate::error::service_error::ServiceError;
use crate::error::transaction_error::TransactionError;
use crate::service::ledger::Ledger;
use vstd::prelude::*;

verus! {

/// Each of the five account operations, where it succeeds, keeps the total
/// equal to the sum of available and held funds.
pub proof fn operations_keep_balance(client: Client, amount: i64)
    requires
        client.balanced(),
    ensures
        client.deposited(amount) matches Ok(after) ==> after.balanced(),
        client.withdrawn(amount) matches Ok(after) ==> after.balanced(),
        client.disputed(amount) matches Ok(after) ==> after.balanced(),
        client.resolved(amount) matches Ok(after) ==> after.balanced(),
        client.charged_back(amount) matches Ok(after) ==> after.balanced(),
{
}

/// No account operation unlocks a locked account.
pub proof fn operations_keep_lock(client: Client, amount: i64)
    requires
        client.status == ClientStatus::Locked,
    ensures
        client.deposited(amount) matches Ok(after) ==> after.status == ClientStatus::Locked,
        client.withdrawn(amount) matches Ok(after) ==> after.status == ClientStatus::Locked,
        client.disputed(amount) matches Ok(after) ==> after.status == ClientStatus::Locked,
        client.resolved(amount) matches Ok(after) ==> after.status == ClientStatus::Locked,
        client.charged_back(amount) matches Ok(after) ==> after.status == ClientStatus::Locked,
{
}

/// An event that is rejected leaves accounts and transactions as they were.
pub proof fn rejected_event_changes_nothing(ledger: Ledger, record: InputRecord)
    requires
        ledger.processed(record).result is Err,
    ensures
        ledger.processed(record).ledger == ledger,
{
}

/// An event keeps every account balanced, and the account that it returns is
/// balanced.
pub proof fn event_keeps_accounts_balanced(ledger: Ledger, record: InputRecord)
    requires
        ledger.all_balanced(),
    ensures
        ledger.processed(record).ledger.all_balanced(),
        ledger.processed(record).result matches Ok(client) ==> client.balanced(),
{
}

/// Starting from balanced accounts, the accounts are balanced after every
/// prefix of a stream of events.
pub proof fn accounts_balanced_after_every_prefix(
    ledger: Ledger,
    records: Seq<InputRecord>,
    n: int,
)
    requires
        ledger.all_balanced(),
        0 <= n <= records.len(),
    ensures
        ledger.after(records.take(n)).all_balanced(),
    decreases n,
{
    if n > 0 {
        accounts_balanced_after_every_prefix(ledger, records, n - 1);
        assert(records.take(n).drop_last() == records.take(n - 1));
        event_keeps_accounts_balanced(ledger.after(records.take(n - 1)), records.take(n).last());
    }
}

/// Whatever the stream of events, the accounts are balanced after every
/// prefix of it.
pub proof fn stream_keeps_accounts_balanced(records: Seq<InputRecord>, n: int)
    requires
        0 <= n <= records.len(),
    ensures
        Ledger::empty().after(records.take(n)).all_balanced(),
{
    accounts_balanced_after_every_prefix(Ledger::empty(), records, n);
}

/// An event leaves a locked account in place and locked.
pub proof fn event_keeps_lock(ledger: Ledger, record: InputRecord, id: ClientId)
    requires
        ledger.has_locked(id),
    ensures
        ledger.processed(record).ledger.has_locked(id),
{
}

/// Once an account is locked, it is locked after any events that follow.
pub proof fn lock_is_final(ledger: Ledger, records: Seq<InputRecord>, id: ClientId)
    requires
        ledger.has_locked(id),
    ensures
        ledger.after(records).has_locked(id),
    decreases records.len(),
{
    if records.len() > 0 {
        lock_is_final(ledger, records.drop_last(), id);
        event_keeps_lock(ledger.after(records.drop_last()), records.last(), id);
    }
}

/// An account that is locked after some prefix of a stream of events is
/// locked after every longer prefix.
pub proof fn lock_survives_later_events(
    records: Seq<InputRecord>,
    earlier: int,
    later: int,
    id: ClientId,
)
    requires
        0 <= earlier <= later <= records.len(),
        Ledger::empty().after(records.take(earlier)).has_locked(id),
    ensures
        Ledger::empty().after(records.take(later)).has_locked(id),
{
    let between = records.subrange(earlier, later);
    assert(records.take(later) == records.take(earlier) + between);
    after_concatenation(Ledger::empty(), records.take(earlier), between);
    lock_is_final(Ledger::empty().after(records.take(earlier)), between, id);
}

/// No event removes an account, and only a deposit opens one.
pub proof fn event_keeps_accounts(ledger: Ledger, record: InputRecord, id: ClientId)
    ensures
        ledger.accounts.contains_key(id) ==> ledger.processed(record).ledger.accounts.contains_key(
            id,
        ),
        !ledger.accounts.contains_key(id) && ledger.processed(record).ledger.accounts.contains_key(
            id,
        ) ==> record.tx_type == TxType::Deposit && record.client == id,
{
}

/// A client to whom no event of the stream deposits has no account at the
/// end of the stream.
pub proof fn no_account_without_deposit(records: Seq<InputRecord>, id: ClientId)
    requires
        forall|i: int|
            0 <= i < records.len() ==> !((#[trigger] records[i]).tx_type == TxType::Deposit
                && records[i].client == id),
    ensures
        !Ledger::empty().after(records).accounts.contains_key(id),
    decreases records.len(),
{
    if records.len() > 0 {
        let earlier = records.drop_last();
        assert forall|i: int| 0 <= i < earlier.len() implies !((#[trigger] earlier[i]).tx_type
            == TxType::Deposit && earlier[i].client == id) by {
            assert(earlier[i] == records[i]);
        }
        no_account_without_deposit(earlier, id);
        event_keeps_accounts(Ledger::empty().after(earlier), records.last(), id);
    }
}

/// No event removes a transaction, and a dispute is open on a transaction
/// after an event only if it was open before or the event is a dispute that
/// names the transaction.
pub proof fn event_keeps_transactions(ledger: Ledger, record: InputRecord, id: TxId)
    ensures
        ledger.transactions.contains_key(id) ==> ledger.processed(
            record,
        ).ledger.transactions.contains_key(id),
        ledger.processed(record).ledger.transactions.contains_key(id) && ledger.processed(
            record,
        ).ledger.transactions[id].status == TransactionStatus::Disputed ==> {
            &&& ledger.transactions.contains_key(id)
            &&& ledger.transactions[id].status == TransactionStatus::Disputed || (record.tx_type
                == TxType::Dispute && record.tx == id)
        },
{
}

/// A withdrawal that carries an amount, a dispute, a resolve or a chargeback
/// for a client without an account is rejected as such and opens no account.
pub proof fn unknown_client_is_rejected(ledger: Ledger, record: InputRecord)
    requires
        !ledger.accounts.contains_key(record.client),
        record.tx_type != TxType::Deposit,
        record.tx_type == TxType::Withdrawal ==> record.amount is Some,
    ensures
        ledger.processed(record).result == Err::<Client, ServiceError>(
            ServiceError::Client(ClientError::NotFound { id: record.client }),
        ),
        ledger.processed(record).ledger == ledger,
{
}

/// A deposit or withdrawal without an amount is rejected as invalid; it
/// changes no account and records no transaction.
pub proof fn missing_amount_is_rejected(ledger: Ledger, record: InputRecord)
    requires
        record.tx_type == TxType::Deposit || record.tx_type == TxType::Withdrawal,
        record.amount is None,
    ensures
        ledger.processed(record).result == Err::<Client, ServiceError>(
            ServiceError::Transaction(TransactionError::InvalidTransaction { id: record.tx }),
        ),
        ledger.processed(record).ledger == ledger,
{
}

/// A resolve or chargeback for a known client that refers to a recorded
/// transaction on which no dispute is open is rejected as such.
pub proof fn undisputed_transaction_is_rejected(ledger: Ledger, record: InputRecord)
    requires
        record.tx_type == TxType::Resolve || record.tx_type == TxType::Chargeback,
        ledger.accounts.contains_key(record.client),
        ledger.transactions.contains_key(record.tx),
        ledger.transactions[record.tx].status != TransactionStatus::Disputed,
    ensures
        ledger.processed(record).result == Err::<Client, ServiceError>(
            ServiceError::Transaction(TransactionError::NotUnderDispute { id: record.tx }),
        ),
        ledger.processed(record).ledger == ledger,
{
}

/// The state after two streams, one after the other, is the state that the
/// second stream leads to from where the first one ended.
pub proof fn after_concatenation(ledger: Ledger, first: Seq<InputRecord>, second: Seq<InputRecord>)
    ensures
        ledger.after(first + second) == ledger.after(first).after(second),
    decreases second.len(),
{
    if second.len() == 0 {
        assert(first + second == first);
    } else {
        after_concatenation(ledger, first, second.drop_last());
        assert((first + second).drop_last() == first + second.drop_last());
        assert((first + second).last() == second.last());
    }
}

/// A rejected event does not touch the events around it: the stream with it
/// ends in the same state as the stream without it.
pub proof fn rejected_event_is_isolated(
    ledger: Ledger,
    before: Seq<InputRecord>,
    record: InputRecord,
    rest: Seq<InputRecord>,
)
    requires
        ledger.after(before).processed(record).result is Err,
    ensures
        ledger.after(before + seq![record] + rest) == ledger.after(before + rest),
{
    let reached = ledger.after(before);
    after_concatenation(ledger, before + seq![record], rest);
    after_concatenation(ledger, before, seq![record]);
    after_concatenation(ledger, before, rest);
    assert(seq![record].drop_last() == Seq::<InputRecord>::empty());
    assert(reached.after(seq![record].drop_last()) == reached);
    assert(reached.after(seq![record]) == reached.processed(record).ledger);
}

} // verus!
