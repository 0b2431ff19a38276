use rust_exercise::domain::client_id::ClientId;
use rust_exercise::domain::decimal::{parse_numeral, render_decimal};
use rust_exercise::domain::input_record::InputRecord;
use rust_exercise::domain::transaction::Transaction;
use rust_exercise::domain::tx_id::TxId;
use rust_exercise::domain::tx_type::TxType;
use rust_exercise::domain::TransactionStatus;
use rust_exercise::error::{ParseError, TransactionError};
use rust_exercise::repository::client_repository::ClientRepositoryImpl;
use rust_exercise::repository::transaction_repository::TransactionRepositoryImpl;
use rust_exercise::service::transaction_service::TransactionService;

const SAMPLES: [&str; 30] = [
    "0", "1", "7", "42", "007", "+7", "+0", "+", "", "-1", "-0", " 1", "1 ", "1.0", "1e3", "0x10",
    "65535", "65536", "065535", "+65535", "4294967295", "4294967296", "99999999999999999999999",
    "18446744073709551615", "18446744073709551616", "１", "1_000", "++1", "+-1", "12a",
];

#[test]
fn client_ids_are_read_as_sixteen_bit_numerals() {
    assert_eq!(ClientId::try_from("1".to_string()), Ok(ClientId(1)));
    assert_eq!(ClientId::try_from("65535".to_string()), Ok(ClientId(65535)));
    assert_eq!(ClientId::try_from("+12".to_string()), Ok(ClientId(12)));
    assert_eq!(ClientId::try_from("0012".to_string()), Ok(ClientId(12)));
    assert_eq!(ClientId::try_from("65536".to_string()), Err(ParseError::InvalidClientId));
    assert_eq!(ClientId::try_from("".to_string()), Err(ParseError::InvalidClientId));
    assert_eq!(ClientId::try_from("+".to_string()), Err(ParseError::InvalidClientId));
    assert_eq!(ClientId::try_from("-1".to_string()), Err(ParseError::InvalidClientId));
    assert_eq!(ClientId::try_from(" 1".to_string()), Err(ParseError::InvalidClientId));
    assert_eq!(ClientId::try_from("one".to_string()), Err(ParseError::InvalidClientId));
}

#[test]
fn transaction_ids_are_read_as_thirty_two_bit_numerals() {
    assert_eq!(TxId::try_from("100".to_string()), Ok(TxId(100)));
    assert_eq!(TxId::try_from("4294967295".to_string()), Ok(TxId(u32::MAX)));
    assert_eq!(TxId::try_from("4294967296".to_string()), Err(ParseError::InvalidTxId));
    assert_eq!(TxId::try_from("65536".to_string()), Ok(TxId(65536)));
    assert_eq!(TxId::try_from("1.5".to_string()), Err(ParseError::InvalidTxId));
}

#[test]
fn identifiers_are_read_as_the_standard_library_reads_them() {
    for text in SAMPLES {
        assert_eq!(
            ClientId::try_from(text.to_string()).ok().map(|id| id.0),
            text.parse::<u16>().ok(),
            "client identifier {text:?}"
        );
        assert_eq!(
            TxId::try_from(text.to_string()).ok().map(|id| id.0),
            text.parse::<u32>().ok(),
            "transaction identifier {text:?}"
        );
        assert_eq!(parse_numeral(text, u64::MAX), text.parse::<u64>().ok(), "numeral {text:?}");
    }
}

#[test]
fn numerals_respect_the_limit() {
    assert_eq!(parse_numeral("10", 10), Some(10));
    assert_eq!(parse_numeral("11", 10), None);
    assert_eq!(parse_numeral("0", 0), Some(0));
    assert_eq!(parse_numeral("1", 0), None);
    assert_eq!(parse_numeral("0000", 0), Some(0));
    assert_eq!(parse_numeral("18446744073709551615", u64::MAX), Some(u64::MAX));
    assert_eq!(parse_numeral("18446744073709551616", u64::MAX), None);
}

#[test]
fn identifiers_are_written_in_decimal() {
    assert_eq!(ClientId(0).to_string(), "0");
    assert_eq!(ClientId(1).to_string(), "1");
    assert_eq!(ClientId(65535).to_string(), "65535");
    assert_eq!(TxId(100).to_string(), "100");
    assert_eq!(TxId(u32::MAX).to_string(), "4294967295");
    assert_eq!(render_decimal(u64::MAX), "18446744073709551615");
    assert_eq!(render_decimal(10), "10");
}

#[test]
fn written_identifiers_read_back() {
    for number in 0..=u16::MAX {
        let id = ClientId(number);
        assert_eq!(id.to_string(), number.to_string());
        assert_eq!(ClientId::try_from(id.to_string()), Ok(id));
    }
    for number in [0u32, 9, 10, 99, 100, 65535, 65536, 1_000_000, u32::MAX - 1, u32::MAX] {
        let id = TxId(number);
        assert_eq!(id.to_string(), number.to_string());
        assert_eq!(TxId::try_from(id.to_string()), Ok(id));
    }
}

#[test]
fn event_kinds_are_read_by_name() {
    assert_eq!(TxType::try_from("deposit".to_string()), Ok(TxType::Deposit));
    assert_eq!(TxType::try_from("withdrawal".to_string()), Ok(TxType::Withdrawal));
    assert_eq!(TxType::try_from("dispute".to_string()), Ok(TxType::Dispute));
    assert_eq!(TxType::try_from("resolve".to_string()), Ok(TxType::Resolve));
    assert_eq!(TxType::try_from("chargeback".to_string()), Ok(TxType::Chargeback));
}

#[test]
fn unknown_event_kinds_are_refused() {
    for name in ["withdrawalll", "Deposit", "DEPOSIT", "", " deposit", "deposit ", "withdraw", "x"] {
        assert_eq!(TxType::try_from(name.to_string()), Err(ParseError::InvalidTxType), "{name:?}");
    }
}

#[test]
fn a_transaction_is_made_from_a_record_with_an_amount() {
    let record = InputRecord {
        tx_type: TxType::Withdrawal,
        client: ClientId(3),
        tx: TxId(8),
        amount: Some(25),
    };
    let transaction = Transaction::try_from(&record).unwrap();
    assert_eq!(transaction, Transaction {
        id: TxId(8),
        client_id: ClientId(3),
        amount: 25,
        tx_type: TxType::Withdrawal,
        status: TransactionStatus::Confirmed,
    });
    assert_eq!(transaction, Transaction::new(TxId(8), ClientId(3), 25, TxType::Withdrawal));
    assert!(!transaction.is_under_dispute());

    let mut disputed = transaction;
    disputed.status = TransactionStatus::Disputed;
    assert!(disputed.is_under_dispute());
}

#[test]
fn a_record_without_an_amount_makes_no_transaction() {
    let record = InputRecord {
        tx_type: TxType::Deposit,
        client: ClientId(3),
        tx: TxId(8),
        amount: None,
    };
    assert_eq!(
        Transaction::try_from(&record),
        Err(TransactionError::InvalidTransaction { id: TxId(8) })
    );
}

#[test]
fn a_malformed_record_is_reported_and_the_next_one_is_processed() {
    let lines = [
        ("withdrawalll", "1", "1", Some(1i64)),
        ("deposit", "70000", "2", Some(1)),
        ("deposit", "1", "x", Some(1)),
        ("deposit", "1", "3", Some(15)),
    ];
    let mut service =
        TransactionService::new(ClientRepositoryImpl::new(), TransactionRepositoryImpl::new());
    let mut failures: Vec<usize> = Vec::new();
    for (index, (kind, client, tx, amount)) in lines.iter().enumerate() {
        let parsed = TxType::try_from(kind.to_string()).and_then(|tx_type| {
            let client = ClientId::try_from(client.to_string())?;
            let tx = TxId::try_from(tx.to_string())?;
            Ok(InputRecord { tx_type, client, tx, amount: *amount })
        });
        match parsed {
            Ok(record) => {
                let client = service.process_transaction(&record).unwrap();
                assert_eq!(client.available.get(), 15);
            }
            Err(_) => failures.push(index),
        }
    }
    assert_eq!(failures, vec![0, 1, 2]);
    let report = service.get_all_clients();
    assert_eq!(report.len(), 1);
    assert_eq!(report[0].client, ClientId(1));
    assert_eq!(report[0].total.get(), 15);
}
