use crate::error::parse_error::ParseError;
use vstd::prelude::*;
use vstd::std_specs::convert::TryFromSpecImpl;

verus! {

/// The kinds of event. Deposits and withdrawals create a transaction; the
/// other three refer to one that exists.
#[derive(Debug, Clone, Copy, PartialEq, Eq, Structural)]
pub enum TxType {
    Deposit,
    Withdrawal,
    Dispute,
    Resolve,
    Chargeback,
}

impl TxType {
    /// The kind of event that `name` names, in lower case and in full.
    pub open spec fn named(name: Seq<char>) -> Result<TxType, ParseError> {
        if name == "deposit"@ {
            Ok(TxType::Deposit)
        } else if name == "withdrawal"@ {
            Ok(TxType::Withdrawal)
        } else if name == "dispute"@ {
            Ok(TxType::Dispute)
        } else if name == "resolve"@ {
            Ok(TxType::Resolve)
        } else if name == "chargeback"@ {
            Ok(TxType::Chargeback)
        } else {
            Err(ParseError::InvalidTxType)
        }
    }
}

impl TryFrom<String> for TxType {
    type Error = ParseError;

    fn try_from(s: String) -> (result: Result<Self, Self::Error>) {
        if s == "deposit".to_owned() {
            Ok(TxType::Deposit)
        } else if s == "withdrawal".to_owned() {
            Ok(TxType::Withdrawal)
        } else if s == "dispute".to_owned() {
            Ok(TxType::Dispute)
        } else if s == "resolve".to_owned() {
            Ok(TxType::Resolve)
        } else if s == "chargeback".to_owned() {
            Ok(TxType::Chargeback)
        } else {
            Err(ParseError::InvalidTxType)
        }
    }
}

impl TryFromSpecImpl<String> for TxType {
    open spec fn obeys_try_from_spec() -> bool {
        true
    }

    open spec fn try_from_spec(s: String) -> Result<Self, Self::Error> {
        TxType::named(s@)
    }
}

} // verus!
