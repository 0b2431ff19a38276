use vstd::prelude::*;

verus! {

/// Whether an account is still in good standing. `Locked` is final.
#[derive(Debug, Clone, Copy, PartialEq, Eq, Structural)]
pub enum ClientStatus {
    Active,
    Locked,
}

} // verus!
