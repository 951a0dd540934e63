//! The logic of the initial lockup module: seeding a wallet's state,
//! the create / transfer / destroy hooks, and the transfer check.
//!
//! A wallet's balance consists of free tokens and locked tokens. Tokens
//! minted while the token has a lockup period are locked until the period
//! has elapsed; spending more than the free part consumes released locks,
//! oldest first. Every operation either succeeds or leaves the module
//! unchanged and reports why it refused.

use super::LockupPeriodSet;
use crate::compliance::ComplianceHook;
use crate::compliance_modules::common::{
    checked_add_i128, checked_sub_i128, fits_i128, require_non_negative_amount,
    verify_required_hooks,
};
use crate::compliance_modules::initial_lockup_period::{InitialLockupPeriod, LockupView};
use crate::compliance_modules::ComplianceModuleError;
use vstd::prelude::*;

pub use crate::compliance_modules::initial_lockup_period::storage::{
    get_internal_balance, get_lockup_period, get_locks, get_total_locked, set_internal_balance,
    set_locks, set_lockup_period, set_total_locked, InitialLockupStorageKey, LockedTokens,
};

verus! {

// ################## SPECIFICATION ##################

/// The sum of the amounts of `locks`.
pub open spec fn lock_sum(locks: Seq<LockedTokens>) -> int
    decreases locks.len(),
{
    if locks.len() == 0 {
        0
    } else {
        lock_sum(locks.drop_last()) + locks.last().amount
    }
}

/// The sum of the amounts of the locks released at time `now`.
pub open spec fn unlocked_sum(locks: Seq<LockedTokens>, now: u64) -> int
    decreases locks.len(),
{
    if locks.len() == 0 {
        0
    } else {
        unlocked_sum(locks.drop_last(), now) + if locks.last().release_timestamp <= now {
            locks.last().amount as int
        } else {
            0int
        }
    }
}

/// The running total of the released amounts among the first `n` locks,
/// with every partial sum checked against the range of `i128`.
pub open spec fn checked_unlocked(locks: Seq<LockedTokens>, now: u64, n: nat) -> Result<
    int,
    ComplianceModuleError,
>
    decreases n,
{
    if n == 0 {
        Ok(0)
    } else {
        match checked_unlocked(locks, now, (n - 1) as nat) {
            Err(e) => Err(e),
            Ok(t) => {
                let l = locks[n - 1];
                if l.release_timestamp <= now {
                    if fits_i128(t + l.amount) {
                        Ok(t + l.amount)
                    } else {
                        Err(ComplianceModuleError::MathOverflow)
                    }
                } else {
                    Ok(t)
                }
            },
        }
    }
}

/// The running total of the amounts of the first `n` locks: each amount
/// must be non-negative and every partial sum must fit in `i128`.
pub open spec fn checked_lock_total(locks: Seq<LockedTokens>, n: nat) -> Result<
    int,
    ComplianceModuleError,
>
    decreases n,
{
    if n == 0 {
        Ok(0)
    } else {
        match checked_lock_total(locks, (n - 1) as nat) {
            Err(e) => Err(e),
            Ok(t) => {
                let l = locks[n - 1];
                if l.amount < 0 {
                    Err(ComplianceModuleError::InvalidAmount)
                } else if fits_i128(t + l.amount) {
                    Ok(t + l.amount)
                } else {
                    Err(ComplianceModuleError::MathOverflow)
                }
            },
        }
    }
}

/// One step of consuming released locks: `acc` holds the locks kept so
/// far, the amount still to consume and the amount consumed.
pub open spec fn consume_step(
    acc: (Seq<LockedTokens>, int, int),
    l: LockedTokens,
    now: u64,
) -> Result<(Seq<LockedTokens>, int, int), ComplianceModuleError> {
    let (kept, left, consumed) = acc;
    if left > 0 && l.release_timestamp <= now {
        if left >= l.amount {
            if !fits_i128(left - l.amount) {
                Err(ComplianceModuleError::MathUnderflow)
            } else if !fits_i128(consumed + l.amount) {
                Err(ComplianceModuleError::MathOverflow)
            } else {
                Ok((kept, left - l.amount, consumed + l.amount))
            }
        } else {
            if !fits_i128(consumed + left) {
                Err(ComplianceModuleError::MathOverflow)
            } else if !fits_i128(l.amount - left) {
                Err(ComplianceModuleError::MathUnderflow)
            } else {
                Ok(
                    (
                        kept.push(
                            LockedTokens {
                                amount: (l.amount - left) as i128,
                                release_timestamp: l.release_timestamp,
                            },
                        ),
                        0,
                        consumed + left,
                    ),
                )
            }
        }
    } else {
        Ok((kept.push(l), left, consumed))
    }
}

/// Consuming `amount` from the released locks among the first `n` locks,
/// in order: released locks are removed while the amount covers them, the
/// first one it does not cover is reduced, and all others are kept.
pub open spec fn consume_prefix(locks: Seq<LockedTokens>, now: u64, amount: int, n: nat) -> Result<
    (Seq<LockedTokens>, int, int),
    ComplianceModuleError,
>
    decreases n,
{
    if n == 0 {
        Ok((Seq::empty(), amount, 0))
    } else {
        match consume_prefix(locks, now, amount, (n - 1) as nat) {
            Err(e) => Err(e),
            Ok(acc) => consume_step(acc, locks[n - 1], now),
        }
    }
}

/// The state after consuming `amount` from the released locks of
/// `(token, wallet)` and reducing its total accordingly.
pub open spec fn spec_update_locked(s: LockupView, token: u64, wallet: u64, amount: int, now: u64) -> Result<
    LockupView,
    ComplianceModuleError,
> {
    let locks = s.locks_of(token, wallet);
    match consume_prefix(locks, now, amount, locks.len()) {
        Err(e) => Err(e),
        Ok((kept, _, consumed)) => {
            let total = s.total_of(token, wallet);
            if !fits_i128(total - consumed) {
                Err(ComplianceModuleError::MathUnderflow)
            } else {
                Ok(s.with_locks(token, wallet, kept, (total - consumed) as i128))
            }
        },
    }
}

/// `max(x, 0)`.
pub open spec fn non_negative_part(x: int) -> int {
    if x > 0 {
        x
    } else {
        0
    }
}

/// The state after the locks of `(token, wallet)` give way to spending
/// `amount` with `free` free tokens: released locks cover what the free
/// tokens do not.
pub open spec fn spec_release_for_spend(
    s: LockupView,
    token: u64,
    wallet: u64,
    free: int,
    amount: int,
    now: u64,
) -> Result<LockupView, ComplianceModuleError> {
    if amount > non_negative_part(free) {
        spec_update_locked(s, token, wallet, amount - non_negative_part(free), now)
    } else {
        Ok(s)
    }
}

/// `now + period`, saturating at `u64::MAX`.
pub open spec fn release_time(now: u64, period: u64) -> u64 {
    if now + period > u64::MAX {
        u64::MAX
    } else {
        (now + period) as u64
    }
}

/// The state after seeding `wallet`'s balance and locks.
pub open spec fn spec_pre_set_lockup_state(
    s: LockupView,
    token: u64,
    wallet: u64,
    balance: i128,
    locks: Seq<LockedTokens>,
) -> Result<LockupView, ComplianceModuleError> {
    if balance < 0 {
        Err(ComplianceModuleError::InvalidAmount)
    } else {
        match checked_lock_total(locks, locks.len()) {
            Err(e) => Err(e),
            Ok(total) => if total > balance {
                Err(ComplianceModuleError::LockupExceedsBalance)
            } else {
                Ok(s.with_balance(token, wallet, balance).with_locks(token, wallet, locks, total as i128))
            },
        }
    }
}

/// The state after `amount` tokens moved from `from` to `to`.
pub open spec fn spec_on_transfer(s: LockupView, from: u64, to: u64, amount: i128, token: u64, now: u64) -> Result<
    LockupView,
    ComplianceModuleError,
> {
    if amount < 0 {
        Err(ComplianceModuleError::InvalidAmount)
    } else {
        let total = s.total_of(token, from);
        let balance = s.balance_of(token, from);
        let released = if total > 0 {
            if !fits_i128(balance - total) {
                Err(ComplianceModuleError::MathUnderflow)
            } else {
                spec_release_for_spend(s, token, from, balance - total, amount as int, now)
            }
        } else {
            Ok(s)
        };
        match released {
            Err(e) => Err(e),
            Ok(s1) => {
                let from_balance = s1.balance_of(token, from);
                if !fits_i128(from_balance - amount) {
                    Err(ComplianceModuleError::MathUnderflow)
                } else {
                    let s2 = s1.with_balance(token, from, (from_balance - amount) as i128);
                    let to_balance = s2.balance_of(token, to);
                    if !fits_i128(to_balance + amount) {
                        Err(ComplianceModuleError::MathOverflow)
                    } else {
                        Ok(s2.with_balance(token, to, (to_balance + amount) as i128))
                    }
                }
            },
        }
    }
}

/// The state after `amount` tokens were minted to `to` at time `now`.
pub open spec fn spec_on_created(s: LockupView, to: u64, amount: i128, token: u64, now: u64) -> Result<
    LockupView,
    ComplianceModuleError,
> {
    if amount < 0 {
        Err(ComplianceModuleError::InvalidAmount)
    } else {
        let period = s.period(token);
        let locked = if period > 0 {
            let total = s.total_of(token, to);
            if !fits_i128(total + amount) {
                Err(ComplianceModuleError::MathOverflow)
            } else {
                Ok(
                    s.with_locks(
                        token,
                        to,
                        s.locks_of(token, to).push(
                            LockedTokens { amount, release_timestamp: release_time(now, period) },
                        ),
                        (total + amount) as i128,
                    ),
                )
            }
        } else {
            Ok(s)
        };
        match locked {
            Err(e) => Err(e),
            Ok(s1) => {
                let balance = s1.balance_of(token, to);
                if !fits_i128(balance + amount) {
                    Err(ComplianceModuleError::MathOverflow)
                } else {
                    Ok(s1.with_balance(token, to, (balance + amount) as i128))
                }
            },
        }
    }
}

/// The tokens `from` may burn: its free tokens, plus its released locks
/// when the free tokens fall short of `amount`.
pub open spec fn spendable_for_burn(locks: Seq<LockedTokens>, free: int, amount: int, now: u64) -> Result<
    int,
    ComplianceModuleError,
> {
    if free < amount {
        match checked_unlocked(locks, now, locks.len()) {
            Err(e) => Err(e),
            Ok(u) => if fits_i128(free + u) {
                Ok(free + u)
            } else {
                Err(ComplianceModuleError::MathOverflow)
            },
        }
    } else {
        Ok(free)
    }
}

/// The state after `amount` tokens were burned from `from`.
pub open spec fn spec_on_destroyed(s: LockupView, from: u64, amount: i128, token: u64, now: u64) -> Result<
    LockupView,
    ComplianceModuleError,
> {
    if amount < 0 {
        Err(ComplianceModuleError::InvalidAmount)
    } else {
        let total = s.total_of(token, from);
        let balance = s.balance_of(token, from);
        let released = if total > 0 {
            if !fits_i128(balance - total) {
                Err(ComplianceModuleError::MathUnderflow)
            } else {
                match spendable_for_burn(s.locks_of(token, from), balance - total, amount as int, now) {
                    Err(e) => Err(e),
                    Ok(available) => if available < amount {
                        Err(ComplianceModuleError::InsufficientUnlockedBalance)
                    } else {
                        spec_release_for_spend(s, token, from, balance - total, amount as int, now)
                    },
                }
            }
        } else {
            Ok(s)
        };
        match released {
            Err(e) => Err(e),
            Ok(s1) => {
                let from_balance = s1.balance_of(token, from);
                if !fits_i128(from_balance - amount) {
                    Err(ComplianceModuleError::MathUnderflow)
                } else {
                    Ok(s1.with_balance(token, from, (from_balance - amount) as i128))
                }
            },
        }
    }
}

/// Whether `from` may transfer `amount` at time `now`.
pub open spec fn spec_can_transfer(s: LockupView, from: u64, amount: i128, token: u64, now: u64) -> Result<
    bool,
    ComplianceModuleError,
> {
    if !s.config.hooks_verified {
        Err(ComplianceModuleError::HooksNotVerified)
    } else if amount < 0 {
        Ok(false)
    } else {
        let total = s.total_of(token, from);
        let balance = s.balance_of(token, from);
        if total == 0 {
            Ok(true)
        } else if !fits_i128(balance - total) {
            Err(ComplianceModuleError::MathUnderflow)
        } else if balance - total >= amount {
            Ok(true)
        } else {
            let locks = s.locks_of(token, from);
            match checked_unlocked(locks, now, locks.len()) {
                Err(e) => Err(e),
                Ok(u) => if !fits_i128(balance - total + u) {
                    Err(ComplianceModuleError::MathOverflow)
                } else {
                    Ok(balance - total + u >= amount)
                },
            }
        }
    }
}

// ################## CHANGE STATE ##################

/// Sets the lockup period of `token` and reports the event.
pub fn configure_lockup_period(st: &mut InitialLockupPeriod, token: u64, lockup_seconds: u64) -> (ev:
    LockupPeriodSet)
    ensures
        final(st).view() == (LockupView {
            periods: old(st).view().periods.insert(token, lockup_seconds),
            ..old(st).view()
        }),
        ev == (LockupPeriodSet { token, lockup_seconds }),
{
    set_lockup_period(st, token, lockup_seconds);
    LockupPeriodSet { token, lockup_seconds }
}

/// The total of `locks`, refusing a negative amount and an overflow.
fn calculate_total_locked_amount(locks: &Vec<LockedTokens>) -> (r: Result<i128, ComplianceModuleError>)
    ensures
        match checked_lock_total(locks@, locks@.len()) {
            Ok(t) => fits_i128(t) && r == Ok::<i128, ComplianceModuleError>(t as i128),
            Err(e) => r == Err::<i128, _>(e),
        },
{
    let n = locks.len();
    let mut total: i128 = 0;
    let mut i: usize = 0;
    while i < n
        invariant
            n == locks.len(),
            0 <= i <= n,
            checked_lock_total(locks@, i as nat) == Ok::<int, ComplianceModuleError>(total as int),
        decreases n - i,
    {
        let lock = locks[i];
        if lock.amount < 0 {
            proof {
                lemma_checked_lock_total_err_stays(locks@, (i + 1) as nat, n as nat);
            }
            return Err(ComplianceModuleError::InvalidAmount);
        }
        match checked_add_i128(total, lock.amount) {
            Ok(t) => {
                total = t;
            },
            Err(e) => {
                proof {
                    lemma_checked_lock_total_err_stays(locks@, (i + 1) as nat, n as nat);
                }
                return Err(e);
            },
        }
        i = i + 1;
    }
    Ok(total)
}

/// Once the checked total fails on a prefix, it fails the same way on
/// every longer prefix.
proof fn lemma_checked_lock_total_err_stays(locks: Seq<LockedTokens>, k: nat, n: nat)
    requires
        k <= n,
        checked_lock_total(locks, k) is Err,
    ensures
        checked_lock_total(locks, n) == checked_lock_total(locks, k),
    decreases n - k,
{
    if k < n {
        lemma_checked_lock_total_err_stays(locks, k, (n - 1) as nat);
    }
}

/// Once the checked released total fails on a prefix, it fails the same
/// way on every longer prefix.
proof fn lemma_checked_unlocked_err_stays(locks: Seq<LockedTokens>, now: u64, k: nat, n: nat)
    requires
        k <= n,
        checked_unlocked(locks, now, k) is Err,
    ensures
        checked_unlocked(locks, now, n) == checked_unlocked(locks, now, k),
    decreases n - k,
{
    if k < n {
        lemma_checked_unlocked_err_stays(locks, now, k, (n - 1) as nat);
    }
}

/// Once consuming fails on a prefix, it fails the same way on every
/// longer prefix.
proof fn lemma_consume_err_stays(locks: Seq<LockedTokens>, now: u64, amount: int, k: nat, n: nat)
    requires
        k <= n,
        consume_prefix(locks, now, amount, k) is Err,
    ensures
        consume_prefix(locks, now, amount, n) == consume_prefix(locks, now, amount, k),
    decreases n - k,
{
    if k < n {
        lemma_consume_err_stays(locks, now, amount, k, (n - 1) as nat);
    }
}

/// The sum of the amounts of the locks released at `now`.
fn calculate_unlocked_amount(locks: &Vec<LockedTokens>, now: u64) -> (r: Result<i128, ComplianceModuleError>)
    ensures
        match checked_unlocked(locks@, now, locks@.len()) {
            Ok(t) => fits_i128(t) && r == Ok::<i128, ComplianceModuleError>(t as i128),
            Err(e) => r == Err::<i128, _>(e),
        },
{
    let n = locks.len();
    let mut unlocked: i128 = 0;
    let mut i: usize = 0;
    while i < n
        invariant
            n == locks.len(),
            0 <= i <= n,
            checked_unlocked(locks@, now, i as nat) == Ok::<int, ComplianceModuleError>(unlocked as int),
        decreases n - i,
    {
        let lock = locks[i];
        if lock.release_timestamp <= now {
            match checked_add_i128(unlocked, lock.amount) {
                Ok(t) => {
                    unlocked = t;
                },
                Err(e) => {
                    proof {
                        lemma_checked_unlocked_err_stays(locks@, now, (i + 1) as nat, n as nat);
                    }
                    return Err(e);
                },
            }
        }
        i = i + 1;
    }
    Ok(unlocked)
}

/// Consumes `amount_to_consume` from the released locks of
/// `(token, wallet)`, oldest first, and returns the remaining locks and
/// the reduced total for the caller to store.
fn update_locked_tokens(
    st: &InitialLockupPeriod,
    token: u64,
    wallet: u64,
    amount_to_consume: i128,
    now: u64,
) -> (r: Result<(Vec<LockedTokens>, i128), ComplianceModuleError>)
    ensures
        match spec_update_locked(st.view(), token, wallet, amount_to_consume as int, now) {
            Ok(s) => r is Ok && s == st.view().with_locks(token, wallet, r->Ok_0.0@, r->Ok_0.1),
            Err(e) => r == Err::<(Vec<LockedTokens>, i128), _>(e),
        },
{
    let locks = get_locks(st, token, wallet);
    let n = locks.len();
    let mut left: i128 = amount_to_consume;
    let mut consumed: i128 = 0;
    let mut kept: Vec<LockedTokens> = Vec::new();
    let mut i: usize = 0;
    while i < n
        invariant
            n == locks.len(),
            0 <= i <= n,
            locks@ == st.view().locks_of(token, wallet),
            consume_prefix(locks@, now, amount_to_consume as int, i as nat) == Ok::<
                (Seq<LockedTokens>, int, int),
                ComplianceModuleError,
            >((kept@, left as int, consumed as int)),
        decreases n - i,
    {
        let lock = locks[i];
        if left > 0 && lock.release_timestamp <= now {
            if left >= lock.amount {
                let l2 = match checked_sub_i128(left, lock.amount) {
                    Ok(v) => v,
                    Err(e) => {
                        proof {
                            lemma_consume_err_stays(locks@, now, amount_to_consume as int, (i + 1) as nat, n as nat);
                        }
                        return Err(e);
                    },
                };
                let c2 = match checked_add_i128(consumed, lock.amount) {
                    Ok(v) => v,
                    Err(e) => {
                        proof {
                            lemma_consume_err_stays(locks@, now, amount_to_consume as int, (i + 1) as nat, n as nat);
                        }
                        return Err(e);
                    },
                };
                left = l2;
                consumed = c2;
            } else {
                let c2 = match checked_add_i128(consumed, left) {
                    Ok(v) => v,
                    Err(e) => {
                        proof {
                            lemma_consume_err_stays(locks@, now, amount_to_consume as int, (i + 1) as nat, n as nat);
                        }
                        return Err(e);
                    },
                };
                let rest = match checked_sub_i128(lock.amount, left) {
                    Ok(v) => v,
                    Err(e) => {
                        proof {
                            lemma_consume_err_stays(locks@, now, amount_to_consume as int, (i + 1) as nat, n as nat);
                        }
                        return Err(e);
                    },
                };
                consumed = c2;
                kept.push(LockedTokens { amount: rest, release_timestamp: lock.release_timestamp });
                left = 0;
            }
        } else {
            kept.push(lock);
        }
        i = i + 1;
    }
    let total = get_total_locked(st, token, wallet);
    let new_total = checked_sub_i128(total, consumed)?;
    Ok((kept, new_total))
}

/// Seeds `wallet`'s tracked balance and locks, for tokens that existed
/// before the module was attached. The locks must be non-negative and
/// must not exceed the balance.
pub fn pre_set_lockup_state(
    st: &mut InitialLockupPeriod,
    token: u64,
    wallet: u64,
    balance: i128,
    locks: &Vec<LockedTokens>,
) -> (r: Result<(), ComplianceModuleError>)
    ensures
        match spec_pre_set_lockup_state(old(st).view(), token, wallet, balance, locks@) {
            Ok(s) => r is Ok && final(st).view() == s,
            Err(e) => r == Err::<(), _>(e) && final(st).view() == old(st).view(),
        },
{
    require_non_negative_amount(balance)?;
    let total_locked = calculate_total_locked_amount(locks)?;
    if total_locked > balance {
        return Err(ComplianceModuleError::LockupExceedsBalance);
    }
    set_internal_balance(st, token, wallet, balance);
    set_locks(st, token, wallet, locks);
    set_total_locked(st, token, wallet, total_locked);
    Ok(())
}

/// The hooks this module must be registered on.
pub fn required_hooks() -> (r: Vec<ComplianceHook>)
    ensures
        r@ == seq![
            ComplianceHook::CanTransfer,
            ComplianceHook::Created,
            ComplianceHook::Transferred,
            ComplianceHook::Destroyed,
        ],
{
    vec![
        ComplianceHook::CanTransfer,
        ComplianceHook::Created,
        ComplianceHook::Transferred,
        ComplianceHook::Destroyed,
    ]
}

/// Verifies the module's hook wiring; `registered[i]` is the compliance
/// contract's answer for the `i`-th hook of [`required_hooks`].
pub fn verify_hook_wiring(st: &mut InitialLockupPeriod, registered: &Vec<bool>) -> (r: Result<
    (),
    ComplianceModuleError,
>)
    requires
        registered.len() == 4,
    ensures
        final(st).view() == (LockupView { config: final(st).view().config, ..old(st).view() }),
        old(st).config.compliance is None ==> r is Ok && final(st).config == old(st).config,
        old(st).config.compliance is Some && crate::compliance_modules::common::all_registered(
            registered@,
        ) ==> r is Ok && final(st).config.hooks_verified && final(st).config.compliance
            == old(st).config.compliance,
        old(st).config.compliance is Some && !crate::compliance_modules::common::all_registered(
            registered@,
        ) ==> final(st).config == old(st).config && exists|i: int|
            crate::compliance_modules::common::first_unregistered(registered@, i) && r == Err::<
                (),
                _,
            >(ComplianceModuleError::MissingRequiredHook(required_hooks_seq()[i])),
{
    let required = required_hooks();
    verify_required_hooks(&mut st.config, &required, registered)
}

/// The hooks of [`required_hooks`].
pub open spec fn required_hooks_seq() -> Seq<ComplianceHook> {
    seq![
        ComplianceHook::CanTransfer,
        ComplianceHook::Created,
        ComplianceHook::Transferred,
        ComplianceHook::Destroyed,
    ]
}

/// Records a transfer of `amount` from `from` to `to`: spending beyond
/// `from`'s free tokens consumes its released locks, and the tracked
/// balances move.
pub fn on_transfer(st: &mut InitialLockupPeriod, from: u64, to: u64, amount: i128, token: u64, now: u64) -> (r:
    Result<(), ComplianceModuleError>)
    ensures
        match spec_on_transfer(old(st).view(), from, to, amount, token, now) {
            Ok(s) => r is Ok && final(st).view() == s,
            Err(e) => r == Err::<(), _>(e) && final(st).view() == old(st).view(),
        },
{
    require_non_negative_amount(amount)?;
    let total_locked = get_total_locked(st, token, from);
    let mut update: Option<(Vec<LockedTokens>, i128)> = None;
    if total_locked > 0 {
        let pre_balance = get_internal_balance(st, token, from);
        let pre_free = checked_sub_i128(pre_balance, total_locked)?;
        let free = if pre_free > 0 {
            pre_free
        } else {
            0
        };
        if amount > free {
            let u = update_locked_tokens(st, token, from, amount - free, now)?;
            update = Some(u);
        }
    }
    let ghost s1 = if update is Some {
        old(st).view().with_locks(token, from, update->Some_0.0@, update->Some_0.1)
    } else {
        old(st).view()
    };
    let from_bal = get_internal_balance(st, token, from);
    let new_from = checked_sub_i128(from_bal, amount)?;
    let to_bal = if to == from {
        new_from
    } else {
        get_internal_balance(st, token, to)
    };
    let new_to = checked_add_i128(to_bal, amount)?;
    match update {
        Some((kept, new_total)) => {
            set_locks(st, token, from, &kept);
            set_total_locked(st, token, from, new_total);
        },
        None => {},
    }
    assert(st.view() == s1);
    set_internal_balance(st, token, from, new_from);
    set_internal_balance(st, token, to, new_to);
    Ok(())
}

/// Records a mint of `amount` to `to` at time `now`: while the token has
/// a lockup period, the minted tokens are locked until `now` plus that
/// period.
pub fn on_created(st: &mut InitialLockupPeriod, to: u64, amount: i128, token: u64, now: u64) -> (r: Result<
    (),
    ComplianceModuleError,
>)
    ensures
        match spec_on_created(old(st).view(), to, amount, token, now) {
            Ok(s) => r is Ok && final(st).view() == s,
            Err(e) => r == Err::<(), _>(e) && final(st).view() == old(st).view(),
        },
{
    require_non_negative_amount(amount)?;
    let period = get_lockup_period(st, token);
    let mut update: Option<(Vec<LockedTokens>, i128)> = None;
    if period > 0 {
        let mut locks = get_locks(st, token, to);
        locks.push(LockedTokens { amount, release_timestamp: now.saturating_add(period) });
        let total = get_total_locked(st, token, to);
        let new_total = checked_add_i128(total, amount)?;
        update = Some((locks, new_total));
    }
    let ghost s1 = if update is Some {
        old(st).view().with_locks(token, to, update->Some_0.0@, update->Some_0.1)
    } else {
        old(st).view()
    };
    let current = get_internal_balance(st, token, to);
    let new_balance = checked_add_i128(current, amount)?;
    match update {
        Some((locks, new_total)) => {
            set_locks(st, token, to, &locks);
            set_total_locked(st, token, to, new_total);
        },
        None => {},
    }
    assert(st.view() == s1);
    set_internal_balance(st, token, to, new_balance);
    Ok(())
}

/// Records a burn of `amount` from `from`: the burn may use free tokens
/// and released locks only.
pub fn on_destroyed(st: &mut InitialLockupPeriod, from: u64, amount: i128, token: u64, now: u64) -> (r:
    Result<(), ComplianceModuleError>)
    ensures
        match spec_on_destroyed(old(st).view(), from, amount, token, now) {
            Ok(s) => r is Ok && final(st).view() == s,
            Err(e) => r == Err::<(), _>(e) && final(st).view() == old(st).view(),
        },
{
    require_non_negative_amount(amount)?;
    let total_locked = get_total_locked(st, token, from);
    let mut update: Option<(Vec<LockedTokens>, i128)> = None;
    if total_locked > 0 {
        let pre_balance = get_internal_balance(st, token, from);
        let pre_free = checked_sub_i128(pre_balance, total_locked)?;
        let mut free_amount = pre_free;
        if free_amount < amount {
            let locks = get_locks(st, token, from);
            let unlocked = calculate_unlocked_amount(&locks, now)?;
            free_amount = checked_add_i128(free_amount, unlocked)?;
        }
        if free_amount < amount {
            return Err(ComplianceModuleError::InsufficientUnlockedBalance);
        }
        let free = if pre_free > 0 {
            pre_free
        } else {
            0
        };
        if amount > free {
            let u = update_locked_tokens(st, token, from, amount - free, now)?;
            update = Some(u);
        }
    }
    let ghost s1 = if update is Some {
        old(st).view().with_locks(token, from, update->Some_0.0@, update->Some_0.1)
    } else {
        old(st).view()
    };
    let current = get_internal_balance(st, token, from);
    let new_balance = checked_sub_i128(current, amount)?;
    match update {
        Some((kept, new_total)) => {
            set_locks(st, token, from, &kept);
            set_total_locked(st, token, from, new_total);
        },
        None => {},
    }
    assert(st.view() == s1);
    set_internal_balance(st, token, from, new_balance);
    Ok(())
}

/// Whether `from` may transfer `amount` at time `now`: a transfer may use
/// free tokens and released locks. Refused while the hook wiring is not
/// verified.
pub fn can_transfer(st: &InitialLockupPeriod, from: u64, amount: i128, token: u64, now: u64) -> (r: Result<
    bool,
    ComplianceModuleError,
>)
    ensures
        r == spec_can_transfer(st.view(), from, amount, token, now),
{
    if !st.config.hooks_verified {
        return Err(ComplianceModuleError::HooksNotVerified);
    }
    if amount < 0 {
        return Ok(false);
    }
    let total_locked = get_total_locked(st, token, from);
    if total_locked == 0 {
        return Ok(true);
    }
    let balance = get_internal_balance(st, token, from);
    let free = checked_sub_i128(balance, total_locked)?;
    if free >= amount {
        return Ok(true);
    }
    let locks = get_locks(st, token, from);
    let unlocked = calculate_unlocked_amount(&locks, now)?;
    let spendable = checked_add_i128(free, unlocked)?;
    Ok(spendable >= amount)
}

} // verus!
