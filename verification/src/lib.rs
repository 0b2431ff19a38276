//! A transaction-processing engine. It takes a stream of events (deposits,
//! withdrawals, disputes, resolves and chargebacks), one at a time, and keeps
//! the balances of each client and the dispute state of each transaction.
//!
//! Amounts are whole numbers of the smallest currency unit. An event that
//! cannot be applied is rejected with an error and changes nothing; the events
//! after it are processed as if it had not been there.
//!
//! [`service::ledger`] defines the engine as a state machine over mathematical
//! maps, [`service::transaction_service`] implements it over two stores, and
//! [`service::guarantees`] proves what holds of it for every stream of events.

pub mod domain;
pub mod error;
pub mod repository;
pub mod service;
