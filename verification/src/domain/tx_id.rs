use crate::domain::decimal::{
    decimal, decimal_reads_back, numeral, parse_numeral, render_decimal,
};
use crate::error::parse_error::ParseError;
use vstd::prelude::*;
use vstd::std_specs::convert::TryFromSpecImpl;

verus! {

/// The identifier of a transaction, unique across all clients.
#[derive(Debug, Clone, Copy, PartialEq, Eq, Hash, Structural)]
pub struct TxId(pub u32);

impl TxId {
    /// The identifier that `text` writes: a decimal numeral for a number that
    /// fits thirty-two bits.
    pub open spec fn parsed(text: Seq<char>) -> Result<TxId, ParseError> {
        match numeral(text, u32::MAX as nat) {
            Some(number) => Ok(TxId(number as u32)),
            None => Err(ParseError::InvalidTxId),
        }
    }

    /// What `to_string` writes of an identifier, `try_from` reads back as
    /// that identifier.
    pub proof fn written_reads_back(self)
        ensures
            TxId::parsed(decimal(self.0 as nat)) == Ok::<TxId, ParseError>(self),
    {
        decimal_reads_back(self.0 as nat, u32::MAX as nat);
    }

    /// The identifier in decimal, as `try_from` reads it.
    pub fn to_string(&self) -> (result: String)
        ensures
            result@ == decimal(self.0 as nat),
    {
        render_decimal(self.0 as u64)
    }
}

impl TryFrom<String> for TxId {
    type Error = ParseError;

    fn try_from(s: String) -> (result: Result<Self, Self::Error>) {
        match parse_numeral(s.as_str(), u32::MAX as u64) {
            Some(number) => Ok(TxId(number as u32)),
            None => Err(ParseError::InvalidTxId),
        }
    }
}

impl TryFromSpecImpl<String> for TxId {
    open spec fn obeys_try_from_spec() -> bool {
        true
    }

    open spec fn try_from_spec(s: String) -> Result<Self, Self::Error> {
        TxId::parsed(s@)
    }
}

} // verus!
