//! Initial lockup period module (earlier generation): tokens received
//! through a mint stay locked for the token's lockup period; tokens
//! received through transfers are free.

pub mod laws;
pub mod storage;

use vstd::prelude::*;

pub use crate::compliance_modules::initial_lockup_period::InitialLockupPeriod;
pub use storage::LockedTokens;

verus! {

/// Event: the lockup period of `token` was set.
#[derive(Clone, Copy, Debug, PartialEq, Eq, Structural)]
pub struct LockupPeriodSet {
    /// The token.
    pub token: u64,
    /// The new lockup period in seconds.
    pub lockup_seconds: u64,
}

} // verus!
