//! The entities of the engine: identifiers, amounts, accounts, transactions and
//! the records that enter and leave it.

pub mod amounts;
pub mod client;
pub mod client_id;
pub mod client_status;
pub mod decimal;
pub mod input_record;
pub mod output_record;
pub mod transaction;
pub mod transaction_status;
pub mod tx_id;
pub mod tx_type;

pub use client_status::ClientStatus;
pub use transaction_status::TransactionStatus;
