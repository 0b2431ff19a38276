//! The stores that the engine reads and writes: accounts by client, and
//! transactions by transaction identifier.

pub mod client_repository;
pub mod transaction_repository;
