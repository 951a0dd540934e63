//! Storage of the initial lockup module: the lockup period of each token
//! and, per `(token, wallet)`, the wallet's locks, their total and the
//! wallet's balance as the module tracks it. Absent entries read as the
//! zero value (`0`, or no locks).

use super::{InitialLockupPeriod, LockupView};
use vstd::prelude::*;

verus! {

broadcast use vstd::std_specs::hash::group_hash_axioms;

/// An amount of tokens that stays locked until `release_timestamp`.
#[derive(Clone, Copy, Debug, PartialEq, Eq, Structural)]
pub struct LockedTokens {
    /// The number of locked tokens.
    pub amount: i128,
    /// The ledger time (seconds) from which the tokens are free.
    pub release_timestamp: u64,
}

/// The keys under which the module's values are stored.
#[derive(Clone, Copy, Debug, PartialEq, Eq, Structural)]
pub enum InitialLockupStorageKey {
    /// The lockup period of a token.
    LockupPeriod(u64),
    /// The locks of a `(token, wallet)`.
    Locks(u64, u64),
    /// The total locked amount of a `(token, wallet)`.
    TotalLocked(u64, u64),
    /// The tracked balance of a `(token, wallet)`.
    InternalBalance(u64, u64),
}

/// A copy of a list of locks.
pub fn copy_locks(locks: &Vec<LockedTokens>) -> (r: Vec<LockedTokens>)
    ensures
        r@ == locks@,
{
    let mut r: Vec<LockedTokens> = Vec::new();
    let n = locks.len();
    for i in 0..n
        invariant
            n == locks.len(),
            r@ == locks@.take(i as int),
    {
        r.push(locks[i]);
        assert(r@ =~= locks@.take(i + 1));
    }
    assert(r@ =~= locks@);
    r
}

/// The lockup period of `token` in seconds (0 when none is set).
pub fn get_lockup_period(st: &InitialLockupPeriod, token: u64) -> (p: u64)
    ensures
        p == st.view().period(token),
{
    match st.lockup_periods.get(&token) {
        Some(p) => *p,
        None => 0,
    }
}

/// Sets the lockup period of `token`.
pub fn set_lockup_period(st: &mut InitialLockupPeriod, token: u64, seconds: u64)
    ensures
        final(st).view() == (LockupView {
            periods: old(st).view().periods.insert(token, seconds),
            ..old(st).view()
        }),
{
    st.lockup_periods.insert(token, seconds);
}

/// The locks of `wallet` for `token` (none when unset).
pub fn get_locks(st: &InitialLockupPeriod, token: u64, wallet: u64) -> (l: Vec<LockedTokens>)
    ensures
        l@ == st.view().locks_of(token, wallet),
{
    match st.locks.get(token, wallet) {
        Some(v) => copy_locks(v),
        None => Vec::new(),
    }
}

/// Replaces the locks of `wallet` for `token`.
pub fn set_locks(st: &mut InitialLockupPeriod, token: u64, wallet: u64, locks: &Vec<LockedTokens>)
    ensures
        final(st).view() == (LockupView {
            locks: old(st).view().locks.insert((token, wallet), locks@),
            ..old(st).view()
        }),
{
    let v = copy_locks(locks);
    st.locks.insert(token, wallet, v);
    assert(st.view().locks =~= old(st).view().locks.insert((token, wallet), locks@));
}

/// The total locked amount of `wallet` for `token` (0 when unset).
pub fn get_total_locked(st: &InitialLockupPeriod, token: u64, wallet: u64) -> (t: i128)
    ensures
        t == st.view().total_of(token, wallet),
{
    match st.total_locked.get(token, wallet) {
        Some(v) => *v,
        None => 0,
    }
}

/// Sets the total locked amount of `wallet` for `token`.
pub fn set_total_locked(st: &mut InitialLockupPeriod, token: u64, wallet: u64, amount: i128)
    ensures
        final(st).view() == (LockupView {
            totals: old(st).view().totals.insert((token, wallet), amount),
            ..old(st).view()
        }),
{
    st.total_locked.insert(token, wallet, amount);
}

/// The balance the module tracks for `wallet` in `token` (0 when unset).
pub fn get_internal_balance(st: &InitialLockupPeriod, token: u64, wallet: u64) -> (b: i128)
    ensures
        b == st.view().balance_of(token, wallet),
{
    match st.internal_balances.get(token, wallet) {
        Some(v) => *v,
        None => 0,
    }
}

/// Sets the balance the module tracks for `wallet` in `token`.
pub fn set_internal_balance(st: &mut InitialLockupPeriod, token: u64, wallet: u64, balance: i128)
    ensures
        final(st).view() == (LockupView {
            balances: old(st).view().balances.insert((token, wallet), balance),
            ..old(st).view()
        }),
{
    st.internal_balances.insert(token, wallet, balance);
}

} // verus!
