use crate::domain::amounts::{AvailableAmount, HeldAmount, TotalAmount};
use crate::domain::client::Client;
use crate::domain::client_id::ClientId;
use crate::domain::client_status::ClientStatus;
use vstd::prelude::*;
use vstd::std_specs::convert::FromSpecImpl;

verus! {

/// The state of one account as it is reported at the end of a run.
#[derive(Debug, Clone, Copy, PartialEq, Eq, Structural)]
pub struct OutputRecord {
    pub client: ClientId,
    pub available: AvailableAmount,
    pub held: HeldAmount,
    pub total: TotalAmount,
    pub locked: bool,
}

impl OutputRecord {
    /// The row that reports `client`.
    pub open spec fn of(client: Client) -> OutputRecord {
        OutputRecord {
            client: client.id,
            available: client.available,
            held: client.held,
            total: client.total,
            locked: client.status == ClientStatus::Locked,
        }
    }
}

impl<'a> From<&'a Client> for OutputRecord {
    fn from(client: &'a Client) -> (result: Self) {
        Self {
            client: client.id,
            available: client.available,
            held: client.held,
            total: client.total,
            locked: client.is_locked(),
        }
    }
}

impl<'a> FromSpecImpl<&'a Client> for OutputRecord {
    open spec fn obeys_from_spec() -> bool {
        true
    }

    open spec fn from_spec(client: &'a Client) -> Self {
        OutputRecord::of(*client)
    }
}

} // verus!
