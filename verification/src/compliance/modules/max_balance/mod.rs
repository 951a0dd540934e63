//! Max balance module (earlier generation): tracks balances per identity
//! and caps them; a cap of 0 admits nothing.

pub mod storage;

use vstd::prelude::*;

pub use crate::compliance_modules::max_balance::MaxBalance;

verus! {

/// Event: the cap of `token` was set.
#[derive(Clone, Copy, Debug, PartialEq, Eq, Structural)]
pub struct MaxBalanceSet {
    /// The token.
    pub token: u64,
    /// The new cap.
    pub max_balance: i128,
}

/// Event: the balance of `identity` was seeded.
#[derive(Clone, Copy, Debug, PartialEq, Eq, Structural)]
pub struct IDBalancePreSet {
    /// The token.
    pub token: u64,
    /// The identity.
    pub identity: u64,
    /// The seeded balance.
    pub balance: i128,
}

} // verus!
