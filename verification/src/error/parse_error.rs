use vstd::prelude::*;

verus! {

/// A textual field of a record that could not be read.
#[derive(Debug, Clone, Copy, PartialEq, Eq, Structural)]
pub enum ParseError {
    /// Not a decimal numeral in the range of a client identifier.
    InvalidClientId,
    /// Not a decimal numeral in the range of a transaction identifier.
    InvalidTxId,
    /// Not the name of a kind of event.
    InvalidTxType,
}

} // verus!
