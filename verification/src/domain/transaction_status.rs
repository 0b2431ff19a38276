use vstd::prelude::*;

verus! {

/// Where a transaction stands in the dispute lifecycle.
#[derive(Debug, Clone, Copy, PartialEq, Eq, Structural)]
pub enum TransactionStatus {
    Confirmed,
    Disputed,
}

} // verus!
