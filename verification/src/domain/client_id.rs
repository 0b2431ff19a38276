use crate::domain::decimal::{
    decimal, decimal_reads_back, numeral, parse_numeral, render_decimal,
};
use crate::error::parse_error::ParseError;
use vstd::prelude::*;
use vstd::std_specs::convert::TryFromSpecImpl;

verus! {

/// The identifier of a client, and so of the client's account.
#[derive(Debug, Clone, Copy, PartialEq, Eq, Hash, Structural)]
pub struct ClientId(pub u16);

impl ClientId {
    /// The identifier that `text` writes: a decimal numeral for a number that
    /// fits sixteen bits.
    pub open spec fn parsed(text: Seq<char>) -> Result<ClientId, ParseError> {
        match numeral(text, u16::MAX as nat) {
            Some(number) => Ok(ClientId(number as u16)),
            None => Err(ParseError::InvalidClientId),
        }
    }

    /// What `to_string` writes of an identifier, `try_from` reads back as
    /// that identifier.
    pub proof fn written_reads_back(self)
        ensures
            ClientId::parsed(decimal(self.0 as nat)) == Ok::<ClientId, ParseError>(self),
    {
        decimal_reads_back(self.0 as nat, u16::MAX as nat);
    }

    /// The identifier in decimal, as `try_from` reads it.
    pub fn to_string(&self) -> (result: String)
        ensures
            result@ == decimal(self.0 as nat),
    {
        render_decimal(self.0 as u64)
    }
}

impl TryFrom<String> for ClientId {
    type Error = ParseError;

    fn try_from(s: String) -> (result: Result<Self, Self::Error>) {
        match parse_numeral(s.as_str(), u16::MAX as u64) {
            Some(number) => Ok(ClientId(number as u16)),
            None => Err(ParseError::InvalidClientId),
        }
    }
}

impl TryFromSpecImpl<String> for ClientId {
    open spec fn obeys_try_from_spec() -> bool {
        true
    }

    open spec fn try_from_spec(s: String) -> Result<Self, Self::Error> {
        ClientId::parsed(s@)
    }
}

} // verus!
