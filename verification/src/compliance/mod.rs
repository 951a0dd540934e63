//! Compliance hooks shared by every module, and the earlier generation of
//! the module library under [`modules`].

use vstd::prelude::*;

pub mod modules;

verus! {

/// The points of a token's life cycle at which the compliance contract
/// calls its registered modules.
#[derive(Clone, Copy, Debug, PartialEq, Eq, Structural)]
pub enum ComplianceHook {
    /// Checked before a transfer.
    CanTransfer,
    /// Checked before a mint.
    CanCreate,
    /// Called after a transfer.
    Transferred,
    /// Called after a mint.
    Created,
    /// Called after a burn.
    Destroyed,
}

} // verus!
