use rust_exercise::domain::client::Client;
use rust_exercise::domain::client_id::ClientId;
use rust_exercise::domain::input_record::InputRecord;
use rust_exercise::domain::output_record::OutputRecord;
use rust_exercise::domain::tx_id::TxId;
use rust_exercise::domain::tx_type::TxType;
use rust_exercise::domain::ClientStatus;
use rust_exercise::error::{ClientError, ServiceError, TransactionError};
use rust_exercise::repository::client_repository::ClientRepositoryImpl;
use rust_exercise::repository::transaction_repository::TransactionRepositoryImpl;
use rust_exercise::service::transaction_service::TransactionService;

type Service = TransactionService<ClientRepositoryImpl, TransactionRepositoryImpl>;

fn new_service() -> Service {
    TransactionService::new(ClientRepositoryImpl::new(), TransactionRepositoryImpl::new())
}

fn record(tx_type: TxType, client: u16, tx: u32, amount: Option<i64>) -> InputRecord {
    InputRecord { tx_type, client: ClientId(client), tx: TxId(tx), amount }
}

fn rows(service: &Service) -> Vec<(u16, i128, i128, i128, bool)> {
    let mut rows: Vec<(u16, i128, i128, i128, bool)> = service
        .get_all_clients()
        .iter()
        .map(|row| {
            (row.client.0, row.available.get(), row.held.get(), row.total.get(), row.locked)
        })
        .collect();
    rows.sort();
    rows
}

fn funds_error(client: u16, tx_type: TxType) -> ServiceError {
    ServiceError::Client(ClientError::FundsUpdateError { id: ClientId(client), tx_type })
}

#[test]
fn deposit_dispute_resolve_restores_the_funds() {
    let mut service = new_service();
    service.process_transaction(&record(TxType::Deposit, 1, 1, Some(100))).unwrap();
    service.process_transaction(&record(TxType::Dispute, 1, 1, None)).unwrap();
    let client = service.process_transaction(&record(TxType::Resolve, 1, 1, None)).unwrap();

    assert_eq!(client.available.get(), 100);
    assert_eq!(client.held.get(), 0);
    assert_eq!(client.total.get(), 100);
    assert!(!client.is_locked());
    assert_eq!(rows(&service), vec![(1, 100, 0, 100, false)]);
}

#[test]
fn deposit_dispute_chargeback_removes_the_funds_and_locks() {
    let mut service = new_service();
    service.process_transaction(&record(TxType::Deposit, 1, 1, Some(100))).unwrap();
    let disputed = service.process_transaction(&record(TxType::Dispute, 1, 1, None)).unwrap();
    assert_eq!(disputed.available.get(), 0);
    assert_eq!(disputed.held.get(), 100);
    let client = service.process_transaction(&record(TxType::Chargeback, 1, 1, None)).unwrap();

    assert_eq!(client.available.get(), 0);
    assert_eq!(client.held.get(), 0);
    assert_eq!(client.total.get(), 0);
    assert!(client.is_locked());
    assert_eq!(rows(&service), vec![(1, 0, 0, 0, true)]);
}

#[test]
fn withdrawal_beyond_available_funds_is_rejected_and_changes_nothing() {
    let mut service = new_service();
    service.process_transaction(&record(TxType::Deposit, 1, 1, Some(50))).unwrap();
    let result = service.process_transaction(&record(TxType::Withdrawal, 1, 2, Some(100)));

    assert_eq!(result, Err(funds_error(1, TxType::Withdrawal)));
    assert_eq!(rows(&service), vec![(1, 50, 0, 50, false)]);
    // The rejected withdrawal was not recorded, so it cannot be disputed.
    assert_eq!(
        service.process_transaction(&record(TxType::Dispute, 1, 2, None)),
        Err(ServiceError::Transaction(TransactionError::NotFound { id: TxId(2) }))
    );
}

#[test]
fn events_for_an_unknown_client_are_rejected_and_open_no_account() {
    let mut service = new_service();
    service.process_transaction(&record(TxType::Deposit, 1, 1, Some(10))).unwrap();
    service.process_transaction(&record(TxType::Dispute, 1, 1, None)).unwrap();
    let not_found = Err(ServiceError::Client(ClientError::NotFound { id: ClientId(2) }));

    assert_eq!(service.process_transaction(&record(TxType::Withdrawal, 2, 5, Some(1))), not_found);
    assert_eq!(service.process_transaction(&record(TxType::Dispute, 2, 1, None)), not_found);
    assert_eq!(service.process_transaction(&record(TxType::Resolve, 2, 1, None)), not_found);
    assert_eq!(service.process_transaction(&record(TxType::Chargeback, 2, 1, None)), not_found);
    assert_eq!(rows(&service), vec![(1, 0, 10, 10, false)]);
}

#[test]
fn a_first_withdrawal_opens_no_account() {
    let mut service = new_service();
    let result = service.process_transaction(&record(TxType::Withdrawal, 9, 1, Some(5)));

    assert_eq!(result, Err(ServiceError::Client(ClientError::NotFound { id: ClientId(9) })));
    assert!(service.get_all_clients().is_empty());
}

#[test]
fn a_record_without_amount_is_invalid_and_changes_nothing() {
    let mut service = new_service();
    let invalid = |tx: u32| {
        Err(ServiceError::Transaction(TransactionError::InvalidTransaction { id: TxId(tx) }))
    };

    assert_eq!(service.process_transaction(&record(TxType::Deposit, 1, 1, None)), invalid(1));
    assert!(service.get_all_clients().is_empty());
    // Also for a client that has no account: the amount is looked at first.
    assert_eq!(service.process_transaction(&record(TxType::Withdrawal, 1, 2, None)), invalid(2));

    service.process_transaction(&record(TxType::Deposit, 1, 3, Some(20))).unwrap();
    assert_eq!(service.process_transaction(&record(TxType::Withdrawal, 1, 4, None)), invalid(4));
    assert_eq!(service.process_transaction(&record(TxType::Deposit, 1, 5, None)), invalid(5));
    assert_eq!(rows(&service), vec![(1, 20, 0, 20, false)]);
    // None of the invalid records created a transaction.
    for tx in [1u32, 2, 4, 5] {
        assert_eq!(
            service.process_transaction(&record(TxType::Dispute, 1, tx, None)),
            Err(ServiceError::Transaction(TransactionError::NotFound { id: TxId(tx) }))
        );
    }
}

#[test]
fn resolve_and_chargeback_need_an_open_dispute() {
    let mut service = new_service();
    service.process_transaction(&record(TxType::Deposit, 1, 1, Some(100))).unwrap();
    let not_disputed =
        Err(ServiceError::Transaction(TransactionError::NotUnderDispute { id: TxId(1) }));

    assert_eq!(service.process_transaction(&record(TxType::Resolve, 1, 1, None)), not_disputed);
    assert_eq!(service.process_transaction(&record(TxType::Chargeback, 1, 1, None)), not_disputed);
    assert_eq!(
        service.process_transaction(&record(TxType::Resolve, 1, 2, None)),
        Err(ServiceError::Transaction(TransactionError::NotFound { id: TxId(2) }))
    );
    assert_eq!(rows(&service), vec![(1, 100, 0, 100, false)]);
}

#[test]
fn a_resolved_transaction_stays_disputed() {
    let mut service = new_service();
    service.process_transaction(&record(TxType::Deposit, 1, 1, Some(100))).unwrap();
    service.process_transaction(&record(TxType::Dispute, 1, 1, None)).unwrap();
    service.process_transaction(&record(TxType::Resolve, 1, 1, None)).unwrap();

    // A second resolve finds the dispute still open, but nothing is held.
    assert_eq!(
        service.process_transaction(&record(TxType::Resolve, 1, 1, None)),
        Err(funds_error(1, TxType::Resolve))
    );
    // A chargeback is still taken, and drives the held funds below zero.
    let client = service.process_transaction(&record(TxType::Chargeback, 1, 1, None)).unwrap();
    assert_eq!(client.available.get(), 100);
    assert_eq!(client.held.get(), -100);
    assert_eq!(client.total.get(), 0);
    assert_eq!(client.status, ClientStatus::Locked);
}

#[test]
fn a_dispute_needs_the_amount_to_be_available() {
    let mut service = new_service();
    service.process_transaction(&record(TxType::Deposit, 1, 1, Some(100))).unwrap();
    service.process_transaction(&record(TxType::Withdrawal, 1, 2, Some(60))).unwrap();

    assert_eq!(
        service.process_transaction(&record(TxType::Dispute, 1, 1, None)),
        Err(funds_error(1, TxType::Dispute))
    );
    assert_eq!(rows(&service), vec![(1, 40, 0, 40, false)]);
    // The transaction was left confirmed.
    assert_eq!(
        service.process_transaction(&record(TxType::Resolve, 1, 1, None)),
        Err(ServiceError::Transaction(TransactionError::NotUnderDispute { id: TxId(1) }))
    );
}

#[test]
fn a_rejected_event_does_not_affect_the_events_around_it() {
    let good = [
        record(TxType::Deposit, 1, 1, Some(100)),
        record(TxType::Deposit, 2, 2, Some(30)),
        record(TxType::Withdrawal, 1, 3, Some(25)),
        record(TxType::Dispute, 2, 2, None),
    ];
    let bad = [
        record(TxType::Deposit, 1, 10, None),
        record(TxType::Withdrawal, 2, 11, Some(1000)),
        record(TxType::Resolve, 1, 1, None),
        record(TxType::Chargeback, 3, 2, None),
    ];

    let mut plain = new_service();
    let mut mixed = new_service();
    for (good, bad) in good.iter().zip(bad.iter()) {
        assert!(mixed.process_transaction(bad).is_err());
        let expected = plain.process_transaction(good);
        assert!(expected.is_ok());
        assert_eq!(mixed.process_transaction(good), expected);
        assert!(mixed.process_transaction(bad).is_err());
        assert_eq!(rows(&mixed), rows(&plain));
    }
    assert_eq!(rows(&mixed), vec![(1, 75, 0, 75, false), (2, 0, 30, 30, false)]);
}

#[test]
fn totals_stay_balanced_and_locks_stay_after_every_event() {
    let stream = [
        record(TxType::Deposit, 1, 1, Some(100)),
        record(TxType::Deposit, 2, 2, Some(50)),
        record(TxType::Dispute, 1, 1, None),
        record(TxType::Withdrawal, 2, 3, Some(70)),
        record(TxType::Chargeback, 1, 1, None),
        record(TxType::Deposit, 1, 4, Some(15)),
        record(TxType::Dispute, 1, 4, None),
        record(TxType::Resolve, 1, 4, None),
        record(TxType::Withdrawal, 1, 5, Some(15)),
        record(TxType::Dispute, 2, 2, None),
        record(TxType::Deposit, 3, 6, None),
        record(TxType::Chargeback, 2, 2, None),
        record(TxType::Deposit, 2, 7, Some(1)),
    ];
    let mut service = new_service();
    let mut locked: Vec<u16> = Vec::new();
    for event in stream.iter() {
        let _ = service.process_transaction(event);
        let state = rows(&service);
        for (client, available, held, total, is_locked) in state.iter() {
            assert_eq!(*total, *available + *held);
            if locked.contains(client) {
                assert!(*is_locked);
            }
        }
        for client in locked.iter() {
            assert!(state.iter().any(|row| row.0 == *client));
        }
        locked = state.iter().filter(|row| row.4).map(|row| row.0).collect();
    }
    assert_eq!(rows(&service), vec![(1, 0, 0, 0, true), (2, 1, 0, 1, true)]);
}

#[test]
fn a_dispute_may_name_another_clients_transaction() {
    let mut service = new_service();
    service.process_transaction(&record(TxType::Deposit, 1, 1, Some(40))).unwrap();
    service.process_transaction(&record(TxType::Deposit, 2, 2, Some(90))).unwrap();

    let client = service.process_transaction(&record(TxType::Dispute, 2, 1, None)).unwrap();
    assert_eq!(client.id, ClientId(2));
    assert_eq!(client.available.get(), 50);
    assert_eq!(client.held.get(), 40);
    assert_eq!(rows(&service), vec![(1, 40, 0, 40, false), (2, 50, 40, 90, false)]);
}

#[test]
fn the_report_has_one_row_for_each_client() {
    let mut service = new_service();
    assert!(service.get_all_clients().is_empty());
    service.process_transaction(&record(TxType::Deposit, 2, 1, Some(7))).unwrap();
    service.process_transaction(&record(TxType::Deposit, 1, 2, Some(9))).unwrap();
    service.process_transaction(&record(TxType::Deposit, 2, 3, Some(1))).unwrap();

    assert_eq!(rows(&service), vec![(1, 9, 0, 9, false), (2, 8, 0, 8, false)]);
}

#[test]
fn a_row_reports_the_account_as_it_stands() {
    let mut client = Client::new(ClientId(4));
    client.deposit(12).unwrap();
    client.dispute(5).unwrap();
    let row = OutputRecord::from(&client);
    assert_eq!(row.client, ClientId(4));
    assert_eq!(row.available.get(), 7);
    assert_eq!(row.held.get(), 5);
    assert_eq!(row.total.get(), 12);
    assert!(!row.locked);

    client.chargeback(5).unwrap();
    let row = OutputRecord::from(&client);
    assert_eq!((row.available.get(), row.held.get(), row.total.get()), (7, 0, 7));
    assert!(row.locked);
}
