//! The three balances of an account. Each is a count of the smallest currency
//! unit and changes only by addition.

use vstd::prelude::*;

verus! {

/// Funds that a client may withdraw or dispute against.
#[derive(Debug, Clone, Copy, PartialEq, Eq, Structural)]
pub struct AvailableAmount(pub i128);

impl View for AvailableAmount {
    type V = int;

    open spec fn view(&self) -> int {
        self.0 as int
    }
}

impl AvailableAmount {
    pub fn new(amount: i128) -> (result: Self)
        ensures
            result@ == amount,
    {
        Self(amount)
    }

    pub fn get(&self) -> (result: i128)
        ensures
            result == self@,
    {
        self.0
    }

    /// Adds `amount`, which may be negative. The sum has to fit the counter.
    pub fn add(&mut self, amount: i128)
        requires
            i128::MIN <= old(self)@ + amount <= i128::MAX,
        ensures
            final(self)@ == old(self)@ + amount,
    {
        self.0 = self.0 + amount;
    }
}

/// Funds frozen while a dispute is open.
#[derive(Debug, Clone, Copy, PartialEq, Eq, Structural)]
pub struct HeldAmount(pub i128);

impl View for HeldAmount {
    type V = int;

    open spec fn view(&self) -> int {
        self.0 as int
    }
}

impl HeldAmount {
    pub fn new(amount: i128) -> (result: Self)
        ensures
            result@ == amount,
    {
        Self(amount)
    }

    pub fn get(&self) -> (result: i128)
        ensures
            result == self@,
    {
        self.0
    }

    /// Adds `amount`, which may be negative. The sum has to fit the counter.
    pub fn add(&mut self, amount: i128)
        requires
            i128::MIN <= old(self)@ + amount <= i128::MAX,
        ensures
            final(self)@ == old(self)@ + amount,
    {
        self.0 = self.0 + amount;
    }
}

/// All funds of a client, available and held together.
#[derive(Debug, Clone, Copy, PartialEq, Eq, Structural)]
pub struct TotalAmount(pub i128);

impl View for TotalAmount {
    type V = int;

    open spec fn view(&self) -> int {
        self.0 as int
    }
}

impl TotalAmount {
    pub fn new(amount: i128) -> (result: Self)
        ensures
            result@ == amount,
    {
        Self(amount)
    }

    pub fn get(&self) -> (result: i128)
        ensures
            result == self@,
    {
        self.0
    }

    /// Adds `amount`, which may be negative. The sum has to fit the counter.
    pub fn add(&mut self, amount: i128)
        requires
            i128::MIN <= old(self)@ + amount <= i128::MAX,
        ensures
            final(self)@ == old(self)@ + amount,
    {
        self.0 = self.0 + amount;
    }
}

} // verus!
