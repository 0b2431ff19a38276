//! What can go wrong with a single event. No error here ends a run.

pub mod client_error;
pub mod parse_error;
pub mod service_error;
pub mod transaction_error;

pub use client_error::ClientError;
pub use parse_error::ParseError;
pub use service_error::ServiceError;
pub use transaction_error::TransactionError;
