//! Supply limit module (earlier generation): caps the total supply that
//! may be minted of each token; an unset cap admits no mint.

pub mod storage;

use vstd::prelude::*;

pub use crate::compliance_modules::supply_limit::SupplyLimit;

verus! {

/// Event: the supply cap of `token` was set.
#[derive(Clone, Copy, Debug, PartialEq, Eq, Structural)]
pub struct SupplyLimitSet {
    /// The token.
    pub token: u64,
    /// The new cap.
    pub limit: i128,
}

} // verus!
