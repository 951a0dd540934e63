//! Transfer restriction module (earlier generation): an allowlist of
//! addresses per token, where allowing and disallowing report an event
//! only when they change the list.

pub mod storage;

use vstd::prelude::*;

pub use crate::compliance_modules::transfer_restrict::TransferRestrict;

verus! {

/// Event: `user` was added to the allowlist of `token`.
#[derive(Clone, Copy, Debug, PartialEq, Eq, Structural)]
pub struct UserAllowed {
    /// The token.
    pub token: u64,
    /// The user.
    pub user: u64,
}

/// Event: `user` was removed from the allowlist of `token`.
#[derive(Clone, Copy, Debug, PartialEq, Eq, Structural)]
pub struct UserDisallowed {
    /// The token.
    pub token: u64,
    /// The user.
    pub user: u64,
}

} // verus!
