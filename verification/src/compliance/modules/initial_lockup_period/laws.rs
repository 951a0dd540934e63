//! Properties of the initial lockup module that hold across its
//! operations: locks stay consistent with their recorded total, spending
//! consumes exactly the released locks it needs, locked tokens never
//! exceed the balance of a wallet that only spends what it holds, and
//! transfers move balances without creating or losing tokens.

use super::storage::{
    checked_lock_total, checked_unlocked, consume_prefix, lock_sum, non_negative_part,
    spec_can_transfer, spec_on_created, spec_on_destroyed, spec_on_transfer,
    spec_pre_set_lockup_state, spec_update_locked, unlocked_sum, LockedTokens,
};
use crate::compliance_modules::common::fits_i128;
use crate::compliance_modules::initial_lockup_period::LockupView;
use vstd::prelude::*;

verus! {

/// Every lock amount is non-negative.
pub open spec fn amounts_non_negative(locks: Seq<LockedTokens>) -> bool {
    forall|i: int| 0 <= i < locks.len() ==> #[trigger] locks[i].amount >= 0
}

/// A wallet's recorded total equals the sum of its locks, which are all
/// non-negative.
pub open spec fn record_consistent(total: i128, locks: Seq<LockedTokens>) -> bool {
    &&& total == lock_sum(locks)
    &&& amounts_non_negative(locks)
}

/// Every wallet's locks are consistent with its recorded total.
pub open spec fn locks_consistent(s: LockupView) -> bool {
    forall|t: u64, w: u64| #[trigger] record_consistent(s.total_of(t, w), s.locks_of(t, w))
}

/// A wallet holds at least its locked tokens.
pub open spec fn wallet_solvent(s: LockupView, t: u64, w: u64) -> bool {
    s.balance_of(t, w) >= s.total_of(t, w)
}

/// Every wallet holds at least its locked tokens.
pub open spec fn solvent(s: LockupView) -> bool {
    forall|t: u64, w: u64| #[trigger] wallet_solvent(s, t, w)
}

/// Every lock is released at time `now`.
pub open spec fn all_released(locks: Seq<LockedTokens>, now: u64) -> bool {
    forall|i: int| 0 <= i < locks.len() ==> #[trigger] locks[i].release_timestamp <= now
}

/// No lock is released at time `now`.
pub open spec fn none_released(locks: Seq<LockedTokens>, now: u64) -> bool {
    forall|i: int| 0 <= i < locks.len() ==> now < #[trigger] locks[i].release_timestamp
}

// ################## SUMS ##################

proof fn lemma_take_drop_last<A>(s: Seq<A>, n: int)
    requires
        0 < n <= s.len(),
    ensures
        s.take(n).drop_last() == s.take(n - 1),
        s.take(n).last() == s[n - 1],
{
    assert(s.take(n).drop_last() =~= s.take(n - 1));
}

/// Sums of non-negative locks are bounded: released ones by all of them,
/// and both from below by zero; prefixes sum to no more than the whole.
pub proof fn lemma_sums_bounded(locks: Seq<LockedTokens>, now: u64)
    requires
        amounts_non_negative(locks),
    ensures
        0 <= unlocked_sum(locks, now) <= lock_sum(locks),
        forall|k: int| 0 <= k <= locks.len() ==> 0 <= #[trigger] unlocked_sum(locks.take(k), now)
            <= unlocked_sum(locks, now),
    decreases locks.len(),
{
    if locks.len() > 0 {
        let init = locks.drop_last();
        lemma_sums_bounded(init, now);
        assert forall|k: int| 0 <= k <= locks.len() implies 0 <= #[trigger] unlocked_sum(
            locks.take(k),
            now,
        ) <= unlocked_sum(locks, now) by {
            if k == locks.len() {
                assert(locks.take(k) =~= locks);
            } else {
                assert(locks.take(k) =~= init.take(k));
            }
        }
    } else {
        assert forall|k: int| 0 <= k <= locks.len() implies 0 <= #[trigger] unlocked_sum(
            locks.take(k),
            now,
        ) <= unlocked_sum(locks, now) by {
            assert(locks.take(k) =~= locks);
        }
    }
}

/// The checked total of a prefix, when it succeeds, is the plain sum of
/// that prefix, whose amounts are non-negative; it succeeds whenever the
/// amounts are non-negative and their sum fits.
pub proof fn lemma_checked_lock_total(locks: Seq<LockedTokens>, n: nat)
    requires
        n <= locks.len(),
    ensures
        checked_lock_total(locks, n) is Ok ==> checked_lock_total(locks, n) == Ok::<
            int,
            crate::compliance_modules::ComplianceModuleError,
        >(lock_sum(locks.take(n as int))) && amounts_non_negative(locks.take(n as int)),
        amounts_non_negative(locks.take(n as int)) && fits_i128(lock_sum(locks.take(n as int)))
            ==> checked_lock_total(locks, n) is Ok,
    decreases n,
{
    if n > 0 {
        lemma_checked_lock_total(locks, (n - 1) as nat);
        lemma_take_drop_last(locks, n as int);
        let p = locks.take(n as int);
        if amounts_non_negative(p) {
            assert(amounts_non_negative(locks.take(n - 1))) by {
                assert forall|i: int| 0 <= i < n - 1 implies #[trigger] locks.take(n - 1)[i].amount
                    >= 0 by {
                    assert(p[i] == locks.take(n - 1)[i]);
                }
            }
            assert(p[n - 1].amount >= 0);
            lemma_sums_bounded(locks.take(n - 1), 0);
        }
        if checked_lock_total(locks, n) is Ok {
            assert forall|i: int| 0 <= i < n implies #[trigger] p[i].amount >= 0 by {
                if i < n - 1 {
                    assert(p[i] == locks.take(n - 1)[i]);
                }
            }
        }
    } else {
        assert(locks.take(0) =~= Seq::<LockedTokens>::empty());
    }
}

/// The checked released total of a prefix, when it succeeds, is the plain
/// released sum of that prefix; with non-negative amounts it succeeds
/// whenever the released sum of the whole prefix fits.
pub proof fn lemma_checked_unlocked(locks: Seq<LockedTokens>, now: u64, n: nat)
    requires
        n <= locks.len(),
    ensures
        checked_unlocked(locks, now, n) is Ok ==> checked_unlocked(locks, now, n) == Ok::<
            int,
            crate::compliance_modules::ComplianceModuleError,
        >(unlocked_sum(locks.take(n as int), now)),
        amounts_non_negative(locks) && fits_i128(unlocked_sum(locks.take(n as int), now))
            ==> checked_unlocked(locks, now, n) is Ok,
    decreases n,
{
    if n > 0 {
        lemma_checked_unlocked(locks, now, (n - 1) as nat);
        lemma_take_drop_last(locks, n as int);
        if amounts_non_negative(locks) {
            assert(locks[n - 1].amount >= 0);
            assert(amounts_non_negative(locks.take(n - 1))) by {
                assert forall|i: int| 0 <= i < n - 1 implies #[trigger] locks.take(n - 1)[i].amount
                    >= 0 by {
                    assert(locks.take(n - 1)[i] == locks[i]);
                }
            }
            lemma_sums_bounded(locks.take(n - 1), now);
        }
    } else {
        assert(locks.take(0) =~= Seq::<LockedTokens>::empty());
    }
}

// ################## CONSUMPTION ##################

/// Consuming `amount` from non-negative locks never fails; it consumes
/// `min(amount, released)` and reduces the lock sum and the released sum
/// by exactly that, keeping every amount non-negative.
pub proof fn lemma_consume(locks: Seq<LockedTokens>, now: u64, amount: int, n: nat)
    requires
        n <= locks.len(),
        amounts_non_negative(locks),
        0 <= amount,
        fits_i128(amount),
    ensures
        consume_prefix(locks, now, amount, n) is Ok,
        ({
            let (kept, left, consumed) = consume_prefix(locks, now, amount, n)->Ok_0;
            let released = unlocked_sum(locks.take(n as int), now);
            &&& consumed == if amount < released {
                amount
            } else {
                released
            }
            &&& left == amount - consumed
            &&& lock_sum(kept) == lock_sum(locks.take(n as int)) - consumed
            &&& unlocked_sum(kept, now) == released - consumed
            &&& amounts_non_negative(kept)
        }),
    decreases n,
{
    if n == 0 {
        assert(locks.take(0) =~= Seq::<LockedTokens>::empty());
    } else {
        lemma_consume(locks, now, amount, (n - 1) as nat);
        lemma_take_drop_last(locks, n as int);
        let (kept, left, consumed) = consume_prefix(locks, now, amount, (n - 1) as nat)->Ok_0;
        let l = locks[n - 1];
        assert(l.amount >= 0);
        lemma_sums_bounded(locks.take(n - 1), now);
        if left > 0 && l.release_timestamp <= now {
            if left >= l.amount {
            } else {
                let nl = LockedTokens {
                    amount: (l.amount - left) as i128,
                    release_timestamp: l.release_timestamp,
                };
                assert(kept.push(nl).drop_last() =~= kept);
                assert forall|i: int| 0 <= i < kept.push(nl).len() implies #[trigger] kept.push(
                    nl,
                )[i].amount >= 0 by {
                    if i < kept.len() {
                        assert(kept.push(nl)[i] == kept[i]);
                    }
                }
            }
        } else {
            assert(kept.push(l).drop_last() =~= kept);
            assert forall|i: int| 0 <= i < kept.push(l).len() implies #[trigger] kept.push(l)[i].amount
                >= 0 by {
                if i < kept.len() {
                    assert(kept.push(l)[i] == kept[i]);
                }
            }
        }
    }
}

/// Every lock has a positive amount.
pub open spec fn amounts_positive(locks: Seq<LockedTokens>) -> bool {
    forall|i: int| 0 <= i < locks.len() ==> #[trigger] locks[i].amount > 0
}

/// Consuming released locks drops every lock that the amount covers: of
/// locks with positive amounts, every kept lock still has a positive
/// amount, no lock is added, and once the amount covers all released
/// locks only unreleased locks are left.
pub proof fn law_consume_drops_spent_locks(locks: Seq<LockedTokens>, now: u64, amount: int, n: nat)
    requires
        n <= locks.len(),
        amounts_positive(locks),
        0 <= amount,
        fits_i128(amount),
    ensures
        consume_prefix(locks, now, amount, n) is Ok,
        ({
            let kept = consume_prefix(locks, now, amount, n)->Ok_0.0;
            &&& amounts_positive(kept)
            &&& kept.len() <= n
            &&& amount >= unlocked_sum(locks.take(n as int), now) ==> forall|i: int|
                0 <= i < kept.len() ==> now < #[trigger] kept[i].release_timestamp
        }),
    decreases n,
{
    assert(amounts_non_negative(locks));
    lemma_consume(locks, now, amount, n);
    if n > 0 {
        law_consume_drops_spent_locks(locks, now, amount, (n - 1) as nat);
        lemma_consume(locks, now, amount, (n - 1) as nat);
        lemma_take_drop_last(locks, n as int);
        lemma_sums_bounded(locks.take(n - 1), now);
        let (kept, left, consumed) = consume_prefix(locks, now, amount, (n - 1) as nat)->Ok_0;
        let l = locks[n - 1];
        assert(l.amount > 0);
        assert(locks.take(n as int).last() == l);
        let released = unlocked_sum(locks.take(n - 1), now);
        assert(unlocked_sum(locks.take(n as int), now) == released + if l.release_timestamp <= now {
            l.amount as int
        } else {
            0int
        });
        if left > 0 && l.release_timestamp <= now {
            if left >= l.amount {
            } else {
                let nl = LockedTokens {
                    amount: (l.amount - left) as i128,
                    release_timestamp: l.release_timestamp,
                };
                assert forall|i: int| 0 <= i < kept.push(nl).len() implies #[trigger] kept.push(
                    nl,
                )[i].amount > 0 by {
                    if i < kept.len() {
                        assert(kept.push(nl)[i] == kept[i]);
                    }
                }
            }
        } else {
            assert forall|i: int| 0 <= i < kept.push(l).len() implies #[trigger] kept.push(l)[i].amount
                > 0 by {
                if i < kept.len() {
                    assert(kept.push(l)[i] == kept[i]);
                }
            }
            if amount >= unlocked_sum(locks.take(n as int), now) {
                assert forall|i: int| 0 <= i < kept.push(l).len() implies now < #[trigger] kept.push(
                    l,
                )[i].release_timestamp by {
                    if i < kept.len() {
                        assert(kept.push(l)[i] == kept[i]);
                    }
                }
            }
        }
    }
}

// ################## STATE LAWS ##################

/// Releasing locks for spending keeps the locks consistent, touches only
/// the spender's locks and total, and consumes exactly what the free
/// tokens do not cover, as far as released locks reach.
proof fn lemma_release_for_spend(s: LockupView, token: u64, wallet: u64, free: int, amount: int, now: u64)
    requires
        locks_consistent(s),
        0 <= amount,
        fits_i128(amount),
    ensures
        super::storage::spec_release_for_spend(s, token, wallet, free, amount, now) is Ok,
        ({
            let s2 = super::storage::spec_release_for_spend(s, token, wallet, free, amount, now)->Ok_0;
            let need = amount - non_negative_part(free);
            let released = unlocked_sum(s.locks_of(token, wallet), now);
            &&& locks_consistent(s2)
            &&& s2.balances == s.balances
            &&& s2.config == s.config
            &&& s2.periods == s.periods
            &&& forall|t: u64, w: u64|
                (t != token || w != wallet) ==> #[trigger] s2.total_of(t, w) == s.total_of(t, w)
                    && s2.locks_of(t, w) == s.locks_of(t, w)
            &&& s2.total_of(token, wallet) == if need <= 0 {
                s.total_of(token, wallet) as int
            } else if need < released {
                s.total_of(token, wallet) - need
            } else {
                s.total_of(token, wallet) - released
            }
        }),
{
    let need = amount - non_negative_part(free);
    if need > 0 {
        let locks = s.locks_of(token, wallet);
        assert(record_consistent(s.total_of(token, wallet), locks));
        lemma_consume(locks, now, need, locks.len());
        assert(locks.take(locks.len() as int) =~= locks);
        let (kept, left, consumed) = consume_prefix(locks, now, need, locks.len())->Ok_0;
        lemma_sums_bounded(locks, now);
        let s2 = spec_update_locked(s, token, wallet, need, now)->Ok_0;
        assert forall|t: u64, w: u64| #[trigger] record_consistent(s2.total_of(t, w), s2.locks_of(t, w)) by {
            if t != token || w != wallet {
                assert(record_consistent(s.total_of(t, w), s.locks_of(t, w)));
            }
        }
    }
}

/// Seeding a wallet reads back exactly what was seeded, keeps the locks
/// consistent, and leaves the wallet holding at least its locked tokens.
pub proof fn law_pre_set_lockup_state(
    s: LockupView,
    token: u64,
    wallet: u64,
    balance: i128,
    locks: Seq<LockedTokens>,
)
    requires
        locks_consistent(s),
        spec_pre_set_lockup_state(s, token, wallet, balance, locks) is Ok,
    ensures
        ({
            let s2 = spec_pre_set_lockup_state(s, token, wallet, balance, locks)->Ok_0;
            &&& s2.balance_of(token, wallet) == balance
            &&& s2.locks_of(token, wallet) == locks
            &&& s2.total_of(token, wallet) == lock_sum(locks)
            &&& locks_consistent(s2)
            &&& wallet_solvent(s2, token, wallet)
            &&& solvent(s) ==> solvent(s2)
        }),
{
    lemma_checked_lock_total(locks, locks.len());
    assert(locks.take(locks.len() as int) =~= locks);
    let s2 = spec_pre_set_lockup_state(s, token, wallet, balance, locks)->Ok_0;
    assert forall|t: u64, w: u64| #[trigger] record_consistent(s2.total_of(t, w), s2.locks_of(t, w)) by {
        if t != token || w != wallet {
            assert(record_consistent(s.total_of(t, w), s.locks_of(t, w)));
        }
    }
    if solvent(s) {
        assert forall|t: u64, w: u64| #[trigger] wallet_solvent(s2, t, w) by {
            if t != token || w != wallet {
                assert(wallet_solvent(s, t, w));
            }
        }
    }
}

/// A mint keeps the locks consistent and every wallet holding at least
/// its locked tokens; while the token has a lockup period the minted
/// amount is locked until `now` plus that period.
pub proof fn law_on_created(s: LockupView, to: u64, amount: i128, token: u64, now: u64)
    requires
        locks_consistent(s),
        spec_on_created(s, to, amount, token, now) is Ok,
    ensures
        ({
            let s2 = spec_on_created(s, to, amount, token, now)->Ok_0;
            &&& locks_consistent(s2)
            &&& solvent(s) ==> solvent(s2)
            &&& s2.balance_of(token, to) == s.balance_of(token, to) + amount
            &&& s.period(token) > 0 ==> s2.total_of(token, to) == s.total_of(token, to) + amount
                && s2.locks_of(token, to) == s.locks_of(token, to).push(
                LockedTokens {
                    amount,
                    release_timestamp: super::storage::release_time(now, s.period(token)),
                },
            )
            &&& s.period(token) == 0 ==> s2.total_of(token, to) == s.total_of(token, to)
                && s2.locks_of(token, to) == s.locks_of(token, to)
        }),
{
    let s2 = spec_on_created(s, to, amount, token, now)->Ok_0;
    let old_locks = s.locks_of(token, to);
    assert(record_consistent(s.total_of(token, to), old_locks));
    if s.period(token) > 0 {
        let nl = LockedTokens {
            amount,
            release_timestamp: super::storage::release_time(now, s.period(token)),
        };
        assert(old_locks.push(nl).drop_last() =~= old_locks);
        assert forall|i: int| 0 <= i < old_locks.push(nl).len() implies #[trigger] old_locks.push(
            nl,
        )[i].amount >= 0 by {
            if i < old_locks.len() {
                assert(old_locks.push(nl)[i] == old_locks[i]);
            }
        }
    }
    assert forall|t: u64, w: u64| #[trigger] record_consistent(s2.total_of(t, w), s2.locks_of(t, w)) by {
        if t != token || w != to {
            assert(record_consistent(s.total_of(t, w), s.locks_of(t, w)));
        }
    }
    if solvent(s) {
        assert forall|t: u64, w: u64| #[trigger] wallet_solvent(s2, t, w) by {
            assert(wallet_solvent(s, t, w));
        }
    }
}

/// A transfer moves `amount` from `from` to `to` and leaves every other
/// balance as it was; a transfer to oneself leaves the balance unchanged.
pub proof fn law_transfer_moves_balances(s: LockupView, from: u64, to: u64, amount: i128, token: u64, now: u64)
    requires
        locks_consistent(s),
        spec_on_transfer(s, from, to, amount, token, now) is Ok,
    ensures
        ({
            let s2 = spec_on_transfer(s, from, to, amount, token, now)->Ok_0;
            &&& from != to ==> s2.balance_of(token, from) == s.balance_of(token, from) - amount
                && s2.balance_of(token, to) == s.balance_of(token, to) + amount
            &&& from == to ==> s2.balance_of(token, from) == s.balance_of(token, from)
            &&& forall|t: u64, w: u64|
                (t != token || (w != from && w != to)) ==> #[trigger] s2.balance_of(t, w)
                    == s.balance_of(t, w)
        }),
{
    let total = s.total_of(token, from);
    let balance = s.balance_of(token, from);
    if total > 0 && fits_i128(balance - total) {
        lemma_release_for_spend(s, token, from, balance - total, amount as int, now);
    }
}

/// A transfer that the module allowed, of no more than the sender holds,
/// keeps the locks consistent and every wallet holding at least its
/// locked tokens.
pub proof fn law_allowed_transfer_keeps_invariants(
    s: LockupView,
    from: u64,
    to: u64,
    amount: i128,
    token: u64,
    now: u64,
)
    requires
        locks_consistent(s),
        solvent(s),
        amount <= s.balance_of(token, from),
        spec_can_transfer(s, from, amount, token, now) == Ok::<bool, crate::compliance_modules::ComplianceModuleError>(true),
        spec_on_transfer(s, from, to, amount, token, now) is Ok,
    ensures
        locks_consistent(spec_on_transfer(s, from, to, amount, token, now)->Ok_0),
        solvent(spec_on_transfer(s, from, to, amount, token, now)->Ok_0),
{
    let s2 = spec_on_transfer(s, from, to, amount, token, now)->Ok_0;
    let total = s.total_of(token, from);
    let balance = s.balance_of(token, from);
    let locks = s.locks_of(token, from);
    assert(record_consistent(total, locks));
    assert(wallet_solvent(s, token, from));
    lemma_sums_bounded(locks, now);
    let s1 = if total > 0 {
        lemma_release_for_spend(s, token, from, balance - total, amount as int, now);
        super::storage::spec_release_for_spend(s, token, from, balance - total, amount as int, now)->Ok_0
    } else {
        s
    };
    if total > 0 && balance - total < amount {
        lemma_checked_unlocked(locks, now, locks.len());
        assert(locks.take(locks.len() as int) =~= locks);
    }
    assert(s1.total_of(token, from) <= balance - amount);
    assert forall|t: u64, w: u64| #[trigger] record_consistent(s2.total_of(t, w), s2.locks_of(t, w)) by {
        assert(record_consistent(s1.total_of(t, w), s1.locks_of(t, w)));
    }
    assert forall|t: u64, w: u64| #[trigger] wallet_solvent(s2, t, w) by {
        assert(wallet_solvent(s, t, w));
        if t == token && w != from {
            assert(s1.total_of(t, w) == s.total_of(t, w));
        }
        if t != token {
            assert(s1.total_of(t, w) == s.total_of(t, w));
        }
    }
}

/// A burn of no more than the holder has keeps the locks consistent and
/// every wallet holding at least its locked tokens: a burn can only use
/// free tokens and released locks.
pub proof fn law_on_destroyed_keeps_invariants(s: LockupView, from: u64, amount: i128, token: u64, now: u64)
    requires
        locks_consistent(s),
        solvent(s),
        amount <= s.balance_of(token, from),
        spec_on_destroyed(s, from, amount, token, now) is Ok,
    ensures
        locks_consistent(spec_on_destroyed(s, from, amount, token, now)->Ok_0),
        solvent(spec_on_destroyed(s, from, amount, token, now)->Ok_0),
        spec_on_destroyed(s, from, amount, token, now)->Ok_0.balance_of(token, from) == s.balance_of(
            token,
            from,
        ) - amount,
{
    let s2 = spec_on_destroyed(s, from, amount, token, now)->Ok_0;
    let total = s.total_of(token, from);
    let balance = s.balance_of(token, from);
    let locks = s.locks_of(token, from);
    assert(record_consistent(total, locks));
    assert(wallet_solvent(s, token, from));
    lemma_sums_bounded(locks, now);
    let s1 = if total > 0 {
        lemma_release_for_spend(s, token, from, balance - total, amount as int, now);
        super::storage::spec_release_for_spend(s, token, from, balance - total, amount as int, now)->Ok_0
    } else {
        s
    };
    if total > 0 && balance - total < amount {
        lemma_checked_unlocked(locks, now, locks.len());
        assert(locks.take(locks.len() as int) =~= locks);
    }
    assert(s1.total_of(token, from) <= balance - amount);
    assert forall|t: u64, w: u64| #[trigger] record_consistent(s2.total_of(t, w), s2.locks_of(t, w)) by {
        assert(record_consistent(s1.total_of(t, w), s1.locks_of(t, w)));
    }
    assert forall|t: u64, w: u64| #[trigger] wallet_solvent(s2, t, w) by {
        assert(wallet_solvent(s, t, w));
        if t != token || w != from {
            assert(s1.total_of(t, w) == s.total_of(t, w));
        }
    }
}

/// Once every lock of a wallet is released, the wallet may transfer any
/// amount up to its balance.
pub proof fn law_released_tokens_are_transferable(s: LockupView, from: u64, amount: i128, token: u64, now: u64)
    requires
        s.config.hooks_verified,
        locks_consistent(s),
        wallet_solvent(s, token, from),
        all_released(s.locks_of(token, from), now),
        0 <= amount <= s.balance_of(token, from),
    ensures
        spec_can_transfer(s, from, amount, token, now) == Ok::<bool, crate::compliance_modules::ComplianceModuleError>(true),
{
    let locks = s.locks_of(token, from);
    assert(record_consistent(s.total_of(token, from), locks));
    lemma_unlocked_all_released(locks, now);
    lemma_sums_bounded(locks, now);
    lemma_checked_unlocked(locks, now, locks.len());
    assert(locks.take(locks.len() as int) =~= locks);
}

/// While no lock of a wallet is released, the wallet may transfer only
/// its free tokens.
pub proof fn law_unreleased_tokens_stay_locked(s: LockupView, from: u64, amount: i128, token: u64, now: u64)
    requires
        s.config.hooks_verified,
        locks_consistent(s),
        wallet_solvent(s, token, from),
        none_released(s.locks_of(token, from), now),
        s.total_of(token, from) != 0,
        0 <= amount,
    ensures
        spec_can_transfer(s, from, amount, token, now) == Ok::<bool, crate::compliance_modules::ComplianceModuleError>(
            amount <= s.balance_of(token, from) - s.total_of(token, from),
        ),
{
    let locks = s.locks_of(token, from);
    assert(record_consistent(s.total_of(token, from), locks));
    lemma_sums_bounded(locks, now);
    lemma_unlocked_none_released(locks, now);
    lemma_checked_unlocked(locks, now, locks.len());
    assert(locks.take(locks.len() as int) =~= locks);
}

/// When every lock is released, the released sum is the whole sum.
proof fn lemma_unlocked_all_released(locks: Seq<LockedTokens>, now: u64)
    requires
        all_released(locks, now),
    ensures
        unlocked_sum(locks, now) == lock_sum(locks),
    decreases locks.len(),
{
    if locks.len() > 0 {
        assert(all_released(locks.drop_last(), now)) by {
            assert forall|i: int| 0 <= i < locks.drop_last().len() implies #[trigger] locks.drop_last()[i].release_timestamp <= now by {
                assert(locks.drop_last()[i] == locks[i]);
            }
        }
        lemma_unlocked_all_released(locks.drop_last(), now);
    }
}

/// When no lock is released, the released sum is zero.
proof fn lemma_unlocked_none_released(locks: Seq<LockedTokens>, now: u64)
    requires
        none_released(locks, now),
    ensures
        unlocked_sum(locks, now) == 0,
    decreases locks.len(),
{
    if locks.len() > 0 {
        assert(none_released(locks.drop_last(), now)) by {
            assert forall|i: int| 0 <= i < locks.drop_last().len() implies now < #[trigger] locks.drop_last()[i].release_timestamp by {
                assert(locks.drop_last()[i] == locks[i]);
            }
        }
        lemma_unlocked_none_released(locks.drop_last(), now);
    }
}

} // verus!
