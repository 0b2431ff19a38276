use crate::domain::amounts::{AvailableAmount, HeldAmount, TotalAmount};
use crate::domain::client_id::ClientId;
use crate::domain::client_status::ClientStatus;
use crate::domain::tx_type::TxType;
use crate::error::client_error::ClientError;
use vstd::prelude::*;

verus! {

/// An account: the balances of one client and whether the account is locked.
#[derive(Debug, Clone, Copy, PartialEq, Eq, Structural)]
pub struct Client {
    pub id: ClientId,
    pub available: AvailableAmount,
    pub held: HeldAmount,
    pub total: TotalAmount,
    pub status: ClientStatus,
}

/// Whether `value` fits a balance.
pub open spec fn fits_balance(value: int) -> bool {
    i128::MIN <= value <= i128::MAX
}

impl Client {
    /// The total is the sum of what is available and what is held.
    pub open spec fn balanced(self) -> bool {
        self.total@ == self.available@ + self.held@
    }

    /// The account as it is opened: no funds, not locked.
    pub open spec fn opened(id: ClientId) -> Client {
        Client {
            id,
            available: AvailableAmount(0),
            held: HeldAmount(0),
            total: TotalAmount(0),
            status: ClientStatus::Active,
        }
    }

    /// Whether the three balances can change by these amounts and still fit.
    pub open spec fn admits(self, available: int, held: int, total: int) -> bool {
        &&& fits_balance(self.available@ + available)
        &&& fits_balance(self.held@ + held)
        &&& fits_balance(self.total@ + total)
    }

    /// The account with the three balances changed by these amounts.
    pub open spec fn moved(self, available: int, held: int, total: int) -> Client {
        Client {
            available: AvailableAmount((self.available@ + available) as i128),
            held: HeldAmount((self.held@ + held) as i128),
            total: TotalAmount((self.total@ + total) as i128),
            ..self
        }
    }

    /// What a deposit of `amount` makes of the account.
    pub open spec fn deposited(self, amount: i64) -> Result<Client, ClientError> {
        if self.admits(amount as int, 0, amount as int) {
            Ok(self.moved(amount as int, 0, amount as int))
        } else {
            Err(ClientError::FundsUpdateError { id: self.id, tx_type: TxType::Deposit })
        }
    }

    /// What a withdrawal of `amount` makes of the account: it needs that much
    /// in available funds.
    pub open spec fn withdrawn(self, amount: i64) -> Result<Client, ClientError> {
        if self.available@ >= amount && self.admits(-amount, 0, -amount) {
            Ok(self.moved(-amount, 0, -amount))
        } else {
            Err(ClientError::FundsUpdateError { id: self.id, tx_type: TxType::Withdrawal })
        }
    }

    /// What a dispute over `amount` makes of the account: that much moves from
    /// available to held, and has to be available.
    pub open spec fn disputed(self, amount: i64) -> Result<Client, ClientError> {
        if self.available@ >= amount && self.admits(-amount, amount as int, 0) {
            Ok(self.moved(-amount, amount as int, 0))
        } else {
            Err(ClientError::FundsUpdateError { id: self.id, tx_type: TxType::Dispute })
        }
    }

    /// What resolving a dispute over `amount` makes of the account: that much
    /// moves back from held to available, and has to be held.
    pub open spec fn resolved(self, amount: i64) -> Result<Client, ClientError> {
        if self.held@ >= amount && self.admits(amount as int, -amount, 0) {
            Ok(self.moved(amount as int, -amount, 0))
        } else {
            Err(ClientError::FundsUpdateError { id: self.id, tx_type: TxType::Resolve })
        }
    }

    /// What a chargeback of `amount` makes of the account: the amount leaves
    /// the held funds, whatever they are, and the account is locked.
    pub open spec fn charged_back(self, amount: i64) -> Result<Client, ClientError> {
        if self.admits(0, -amount, -amount) {
            Ok(Client { status: ClientStatus::Locked, ..self.moved(0, -amount, -amount) })
        } else {
            Err(ClientError::FundsUpdateError { id: self.id, tx_type: TxType::Chargeback })
        }
    }

    pub fn new(id: ClientId) -> (result: Self)
        ensures
            result == Client::opened(id),
    {
        Self {
            id,
            available: AvailableAmount::new(0),
            held: HeldAmount::new(0),
            total: TotalAmount::new(0),
            status: ClientStatus::Active,
        }
    }

    pub fn is_locked(&self) -> (result: bool)
        ensures
            result == (self.status == ClientStatus::Locked),
    {
        self.status == ClientStatus::Locked
    }

    /// Tells whether the balances can change by these amounts and still fit.
    fn can_move(&self, available: i128, held: i128, total: i128) -> (result: bool)
        ensures
            result == self.admits(available as int, held as int, total as int),
    {
        self.available.get().checked_add(available).is_some()
            && self.held.get().checked_add(held).is_some()
            && self.total.get().checked_add(total).is_some()
    }

    /// Changes the balances by these amounts.
    fn shift(&mut self, available: i128, held: i128, total: i128)
        requires
            old(self).admits(available as int, held as int, total as int),
        ensures
            *final(self) == old(self).moved(available as int, held as int, total as int),
    {
        self.available.add(available);
        self.held.add(held);
        self.total.add(total);
    }

    pub fn deposit(&mut self, amount: i64) -> (result: Result<(), ClientError>)
        ensures
            match old(self).deposited(amount) {
                Ok(client) => result is Ok && *final(self) == client,
                Err(error) => result == Err::<(), ClientError>(error) && *final(self) == *old(self),
            },
    {
        let amount = amount as i128;
        if !self.can_move(amount, 0, amount) {
            return Err(ClientError::FundsUpdateError { id: self.id, tx_type: TxType::Deposit });
        }
        self.shift(amount, 0, amount);
        Ok(())
    }

    pub fn withdraw(&mut self, amount: i64) -> (result: Result<(), ClientError>)
        ensures
            match old(self).withdrawn(amount) {
                Ok(client) => result is Ok && *final(self) == client,
                Err(error) => result == Err::<(), ClientError>(error) && *final(self) == *old(self),
            },
    {
        let amount = amount as i128;
        if self.available.get() < amount || !self.can_move(-amount, 0, -amount) {
            return Err(ClientError::FundsUpdateError { id: self.id, tx_type: TxType::Withdrawal });
        }
        self.shift(-amount, 0, -amount);
        Ok(())
    }

    pub fn dispute(&mut self, amount: i64) -> (result: Result<(), ClientError>)
        ensures
            match old(self).disputed(amount) {
                Ok(client) => result is Ok && *final(self) == client,
                Err(error) => result == Err::<(), ClientError>(error) && *final(self) == *old(self),
            },
    {
        let amount = amount as i128;
        if self.available.get() < amount || !self.can_move(-amount, amount, 0) {
            return Err(ClientError::FundsUpdateError { id: self.id, tx_type: TxType::Dispute });
        }
        self.shift(-amount, amount, 0);
        Ok(())
    }

    pub fn resolve(&mut self, amount: i64) -> (result: Result<(), ClientError>)
        ensures
            match old(self).resolved(amount) {
                Ok(client) => result is Ok && *final(self) == client,
                Err(error) => result == Err::<(), ClientError>(error) && *final(self) == *old(self),
            },
    {
        let amount = amount as i128;
        if self.held.get() < amount || !self.can_move(amount, -amount, 0) {
            return Err(ClientError::FundsUpdateError { id: self.id, tx_type: TxType::Resolve });
        }
        self.shift(amount, -amount, 0);
        Ok(())
    }

    pub fn chargeback(&mut self, amount: i64) -> (result: Result<(), ClientError>)
        ensures
            match old(self).charged_back(amount) {
                Ok(client) => result is Ok && *final(self) == client,
                Err(error) => result == Err::<(), ClientError>(error) && *final(self) == *old(self),
            },
    {
        let amount = amount as i128;
        if !self.can_move(0, -amount, -amount) {
            return Err(ClientError::FundsUpdateError { id: self.id, tx_type: TxType::Chargeback });
        }
        self.shift(0, -amount, -amount);
        self.status = ClientStatus::Locked;
        Ok(())
    }
}

} // verus!
