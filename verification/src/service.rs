//! The processor: it routes each event to the account operation and the
//! transaction change that the event's kind calls for.

pub mod guarantees;
pub mod ledger;
pub mod transaction_service;
