//! Compliance modules: each keeps per-token state and answers the
//! compliance contract's hooks (`can_transfer`, `can_create`, and the
//! `on_transfer` / `on_created` / `on_destroyed` notifications).
//!
//! Every module's state is a value of its own type. Accounts, tokens,
//! identities and contracts are named by `u64` identifiers. Calls into
//! other contracts (the identity registry, the compliance contract) are
//! made by the caller, which hands their answers to the module; a module
//! reports every refusal as an `Err` and every event it emits as a value.

use crate::compliance::ComplianceHook;
use vstd::prelude::*;

pub mod common;
pub mod country_allow;
pub mod country_restrict;
pub mod initial_lockup_period;
pub mod max_balance;
pub mod supply_limit;
pub mod time_transfers_limits;
pub mod transfer_restrict;

verus! {

/// The reasons for which a compliance module refuses an operation.
#[derive(Clone, Copy, Debug, PartialEq, Eq, Structural)]
pub enum ComplianceModuleError {
    /// An amount, limit or balance is negative.
    InvalidAmount,
    /// An addition left the range of `i128`, or a token already has as
    /// many time limits as allowed.
    MathOverflow,
    /// A subtraction left the range of `i128`.
    MathUnderflow,
    /// No limit is configured where one is needed.
    MissingLimit,
    /// No identity registry is configured for the token.
    IdentityRegistryNotSet,
    /// The module's hook wiring has not been verified.
    HooksNotVerified,
    /// A burn needs more tokens than are unlocked.
    InsufficientUnlockedBalance,
    /// Locked tokens would exceed the balance.
    LockupExceedsBalance,
    /// An identity's balance would exceed the cap.
    MaxBalanceExceeded,
    /// Two lists that must be parallel have different lengths.
    VectorLengthMismatch,
    /// The compliance address is already set and cannot change.
    ComplianceAddressAlreadySet,
    /// The module is not registered on this hook of the compliance contract.
    MissingRequiredHook(ComplianceHook),
    /// A time window of zero seconds.
    ZeroLimitTime,
}

} // verus!
