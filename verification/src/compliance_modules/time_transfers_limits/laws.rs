//! Properties of the time-windowed limits module: a token's limits stay
//! well formed (at most four, one per window length, all positive), and a
//! transfer that passed the check leaves every window's counter within
//! its cap.

use super::{
    has_limit, limit_index, limit_position, refreshed, spec_can_transfer, spec_increase_counters,
    spec_on_transfer, spec_remove_limit, spec_set_limit, spec_within_limits, Limit,
    TimeLimitsView, TransferCounter, MAX_LIMITS_PER_TOKEN,
};
use crate::compliance_modules::common::fits_i128;
use crate::compliance_modules::ComplianceModuleError;
use vstd::prelude::*;

verus! {

/// At most [`MAX_LIMITS_PER_TOKEN`] limits, with positive window lengths,
/// non-negative caps, and no two for the same window length.
pub open spec fn limits_well_formed(limits: Seq<Limit>) -> bool {
    &&& limits.len() <= MAX_LIMITS_PER_TOKEN
    &&& forall|i: int| 0 <= i < limits.len() ==> #[trigger] limits[i].limit_time > 0
    &&& forall|i: int| 0 <= i < limits.len() ==> #[trigger] limits[i].limit_value >= 0
    &&& forall|i: int, j: int|
        0 <= i < limits.len() && 0 <= j < limits.len() && i != j ==> #[trigger] limits[i].limit_time
            != #[trigger] limits[j].limit_time
}

proof fn lemma_limit_index(limits: Seq<Limit>, limit_time: u64)
    requires
        has_limit(limits, limit_time),
    ensures
        limit_position(limits, limit_time, limit_index(limits, limit_time)),
{
    let k = choose|k: int| 0 <= k < limits.len() && #[trigger] limits[k].limit_time == limit_time;
    lemma_first_position(limits, limit_time, k);
}

proof fn lemma_first_position(limits: Seq<Limit>, limit_time: u64, k: int)
    requires
        0 <= k < limits.len(),
        limits[k].limit_time == limit_time,
    ensures
        exists|i: int| limit_position(limits, limit_time, i),
    decreases k,
{
    if exists|j: int| 0 <= j < k && #[trigger] limits[j].limit_time == limit_time {
        let j = choose|j: int| 0 <= j < k && #[trigger] limits[j].limit_time == limit_time;
        lemma_first_position(limits, limit_time, j);
    } else {
        assert(limit_position(limits, limit_time, k));
    }
}

/// Setting a limit keeps the limits well formed; afterwards the token has
/// exactly `limit` for its window length, and every other window length
/// is configured as before.
pub proof fn law_set_limit(limits: Seq<Limit>, limit: Limit)
    requires
        limits_well_formed(limits),
        spec_set_limit(limits, limit) is Ok,
    ensures
        ({
            let l = spec_set_limit(limits, limit)->Ok_0;
            &&& limits_well_formed(l)
            &&& exists|i: int| 0 <= i < l.len() && #[trigger] l[i] == limit
            &&& forall|i: int| 0 <= i < l.len() && l[i].limit_time == limit.limit_time ==> #[trigger] l[i] == limit
            &&& forall|lt: u64| lt != limit.limit_time ==> (#[trigger] has_limit(l, lt) <==> has_limit(limits, lt))
            &&& forall|i: int| 0 <= i < limits.len() && limits[i].limit_time != limit.limit_time
                ==> l.contains(#[trigger] limits[i])
        }),
{
    let l = spec_set_limit(limits, limit)->Ok_0;
    if has_limit(limits, limit.limit_time) {
        lemma_limit_index(limits, limit.limit_time);
        let k = limit_index(limits, limit.limit_time);
        assert(l[k] == limit);
        assert forall|lt: u64| lt != limit.limit_time implies (#[trigger] has_limit(l, lt) <==> has_limit(
            limits,
            lt,
        )) by {
            if has_limit(l, lt) {
                let i = choose|i: int| 0 <= i < l.len() && #[trigger] l[i].limit_time == lt;
                assert(limits[i].limit_time == lt);
            }
            if has_limit(limits, lt) {
                let i = choose|i: int| 0 <= i < limits.len() && #[trigger] limits[i].limit_time == lt;
                assert(l[i].limit_time == lt);
            }
        }
        assert forall|i: int| 0 <= i < limits.len() && limits[i].limit_time != limit.limit_time
            implies l.contains(#[trigger] limits[i]) by {
            assert(l[i] == limits[i]);
        }
    } else {
        assert(l[l.len() - 1] == limit);
        assert forall|lt: u64| lt != limit.limit_time implies (#[trigger] has_limit(l, lt) <==> has_limit(
            limits,
            lt,
        )) by {
            if has_limit(l, lt) {
                let i = choose|i: int| 0 <= i < l.len() && #[trigger] l[i].limit_time == lt;
                assert(limits[i].limit_time == lt);
            }
            if has_limit(limits, lt) {
                let i = choose|i: int| 0 <= i < limits.len() && #[trigger] limits[i].limit_time == lt;
                assert(l[i].limit_time == lt);
            }
        }
        assert forall|i: int| 0 <= i < limits.len() && limits[i].limit_time != limit.limit_time
            implies l.contains(#[trigger] limits[i]) by {
            assert(l[i] == limits[i]);
        }
    }
}

/// Removing a limit keeps the limits well formed; afterwards no limit is
/// left for that window length, and every other is kept.
pub proof fn law_remove_limit(limits: Seq<Limit>, limit_time: u64)
    requires
        limits_well_formed(limits),
        spec_remove_limit(limits, limit_time) is Ok,
    ensures
        ({
            let l = spec_remove_limit(limits, limit_time)->Ok_0;
            &&& limits_well_formed(l)
            &&& !has_limit(l, limit_time)
            &&& l.len() == limits.len() - 1
            &&& forall|i: int| 0 <= i < limits.len() && limits[i].limit_time != limit_time
                ==> l.contains(#[trigger] limits[i])
        }),
{
    lemma_limit_index(limits, limit_time);
    let k = limit_index(limits, limit_time);
    let l = spec_remove_limit(limits, limit_time)->Ok_0;
    assert forall|i: int| 0 <= i < l.len() implies #[trigger] l[i] == if i < k {
        limits[i]
    } else {
        limits[i + 1]
    } by {}
    if has_limit(l, limit_time) {
        let i = choose|i: int| 0 <= i < l.len() && #[trigger] l[i].limit_time == limit_time;
        if i < k {
            assert(limits[i].limit_time == limit_time);
        } else {
            assert(limits[i + 1].limit_time == limit_time);
        }
    }
    assert forall|i: int, j: int|
        0 <= i < l.len() && 0 <= j < l.len() && i != j implies #[trigger] l[i].limit_time
        != #[trigger] l[j].limit_time by {
        let ii = if i < k { i } else { i + 1 };
        let jj = if j < k { j } else { j + 1 };
        assert(l[i] == limits[ii]);
        assert(l[j] == limits[jj]);
    }
    assert forall|i: int| 0 <= i < limits.len() && limits[i].limit_time != limit_time
        implies l.contains(#[trigger] limits[i]) by {
        if i < k {
            assert(l[i] == limits[i]);
        } else {
            assert(i != k);
            assert(l[i - 1] == limits[i]);
        }
    }
    assert forall|i: int| 0 <= i < l.len() implies #[trigger] l[i].limit_time > 0 by {
        if i >= k {
            assert(l[i] == limits[i + 1]);
        }
    }
    assert forall|i: int| 0 <= i < l.len() implies #[trigger] l[i].limit_value >= 0 by {
        if i >= k {
            assert(l[i] == limits[i + 1]);
        }
    }
}

/// A passing check means every one of the first `n` limits admits the
/// amount: it is within the cap, and within what is left of an active
/// window.
proof fn lemma_within(
    s: TimeLimitsView,
    token: u64,
    identity: u64,
    limits: Seq<Limit>,
    amount: i128,
    now: u64,
    n: nat,
)
    requires
        n <= limits.len(),
        spec_within_limits(s, token, identity, limits, amount, now, n) == Ok::<bool, ComplianceModuleError>(true),
    ensures
        forall|i: int|
            0 <= i < n ==> amount <= (#[trigger] limits[i]).limit_value && (s.counter_of(
                token,
                identity,
                limits[i].limit_time,
            ).timer > now ==> s.counter_of(token, identity, limits[i].limit_time).value + amount
                <= limits[i].limit_value),
    decreases n,
{
    if n > 0 {
        lemma_within(s, token, identity, limits, amount, now, (n - 1) as nat);
    }
}

/// Adding to the counters of the first `n` limits, when their window
/// lengths are distinct, sets each of those counters to its refreshed
/// value plus `value` and leaves every other counter unchanged.
proof fn lemma_increase(
    s: TimeLimitsView,
    token: u64,
    identity: u64,
    limits: Seq<Limit>,
    value: i128,
    now: u64,
    n: nat,
)
    requires
        n <= limits.len(),
        limits_well_formed(limits),
        spec_increase_counters(s, token, identity, limits, value, now, n) is Ok,
    ensures
        ({
            let s2 = spec_increase_counters(s, token, identity, limits, value, now, n)->Ok_0;
            &&& s2.config == s.config
            &&& s2.limits == s.limits
            &&& forall|i: int|
                0 <= i < n ==> #[trigger] s2.counter_of(token, identity, limits[i].limit_time) == ({
                    let c = refreshed(s.counter_of(token, identity, limits[i].limit_time), limits[i].limit_time, now);
                    TransferCounter { value: (c.value + value) as i128, timer: c.timer }
                })
            &&& forall|t: u64, d: u64, lt: u64|
                (t != token || d != identity || forall|i: int| 0 <= i < n ==> lt != #[trigger] limits[i].limit_time)
                    ==> #[trigger] s2.counter_of(t, d, lt) == s.counter_of(t, d, lt)
        }),
    decreases n,
{
    if n > 0 {
        lemma_increase(s, token, identity, limits, value, now, (n - 1) as nat);
        let s1 = spec_increase_counters(s, token, identity, limits, value, now, (n - 1) as nat)->Ok_0;
        let lt = limits[n - 1].limit_time;
        assert(forall|i: int| 0 <= i < n - 1 ==> #[trigger] limits[i].limit_time != lt);
        assert(s1.counter_of(token, identity, lt) == s.counter_of(token, identity, lt));
        let s2 = spec_increase_counters(s, token, identity, limits, value, now, n)->Ok_0;
        assert forall|i: int| 0 <= i < n implies #[trigger] s2.counter_of(token, identity, limits[i].limit_time) == ({
            let c = refreshed(s.counter_of(token, identity, limits[i].limit_time), limits[i].limit_time, now);
            TransferCounter { value: (c.value + value) as i128, timer: c.timer }
        }) by {
            if i < n - 1 {
                assert(limits[i].limit_time != lt);
                assert(s2.counter_of(token, identity, limits[i].limit_time) == s1.counter_of(token, identity, limits[i].limit_time));
            } else {
                let c = refreshed(s1.counter_of(token, identity, lt), lt, now);
                assert(s2.counters == s1.counters.insert(
                    (token, identity, lt),
                    TransferCounter { value: (c.value + value) as i128, timer: c.timer },
                ));
                assert(s2.counter_of(token, identity, lt) == TransferCounter { value: (c.value + value) as i128, timer: c.timer });
            }
        }
        assert forall|t: u64, d: u64, lt2: u64|
            (t != token || d != identity || forall|i: int| 0 <= i < n ==> lt2 != #[trigger] limits[i].limit_time)
            implies #[trigger] s2.counter_of(t, d, lt2) == s.counter_of(t, d, lt2) by {
            assert(s1.counter_of(t, d, lt2) == s.counter_of(t, d, lt2));
        }
    }
}

/// A transfer that passed the check is recorded without refusal, and
/// afterwards the sender's counter of every window of a well-formed set
/// of limits is within its cap and belongs to a window still running at
/// `now` (unless time has reached its end).
pub proof fn law_checked_transfer_stays_within_limits(
    s: TimeLimitsView,
    identity: u64,
    amount: i128,
    token: u64,
    now: u64,
)
    requires
        limits_well_formed(s.limits_of(token)),
        spec_can_transfer(s, identity, amount, token, now) == Ok::<bool, ComplianceModuleError>(true),
    ensures
        amount >= 0 ==> spec_on_transfer(s, identity, amount, token, now) is Ok,
        amount >= 0 ==> ({
            let s2 = spec_on_transfer(s, identity, amount, token, now)->Ok_0;
            forall|i: int|
                0 <= i < s.limits_of(token).len() ==> {
                    let l = #[trigger] s.limits_of(token)[i];
                    let c = s2.counter_of(token, identity, l.limit_time);
                    &&& c.value <= l.limit_value
                    &&& (now < u64::MAX ==> c.timer > now)
                }
        }),
{
    let limits = s.limits_of(token);
    if amount >= 0 {
        lemma_within(s, token, identity, limits, amount, now, limits.len());
        lemma_increase_ok(s, token, identity, limits, amount, now, limits.len());
        lemma_increase(s, token, identity, limits, amount, now, limits.len());
    }
}

/// Adding an amount that every limit admits never overflows.
proof fn lemma_increase_ok(
    s: TimeLimitsView,
    token: u64,
    identity: u64,
    limits: Seq<Limit>,
    value: i128,
    now: u64,
    n: nat,
)
    requires
        n <= limits.len(),
        limits_well_formed(limits),
        value >= 0,
        forall|i: int|
            0 <= i < n ==> value <= (#[trigger] limits[i]).limit_value && (s.counter_of(
                token,
                identity,
                limits[i].limit_time,
            ).timer > now ==> s.counter_of(token, identity, limits[i].limit_time).value + value
                <= limits[i].limit_value),
    ensures
        spec_increase_counters(s, token, identity, limits, value, now, n) is Ok,
    decreases n,
{
    if n > 0 {
        lemma_increase_ok(s, token, identity, limits, value, now, (n - 1) as nat);
        lemma_increase(s, token, identity, limits, value, now, (n - 1) as nat);
        let s1 = spec_increase_counters(s, token, identity, limits, value, now, (n - 1) as nat)->Ok_0;
        let lt = limits[n - 1].limit_time;
        assert(forall|i: int| 0 <= i < n - 1 ==> #[trigger] limits[i].limit_time != lt);
        assert(s1.counter_of(token, identity, lt) == s.counter_of(token, identity, lt));
        let c = s.counter_of(token, identity, lt);
        if c.timer > now {
            assert(c.value + value <= limits[n - 1].limit_value);
            assert(limits[n - 1].limit_value <= i128::MAX);
            assert(fits_i128(c.value + value)) by {
                assert(c.value >= i128::MIN);
            }
        }
    }
}

/// A valid limit (positive window, non-negative cap) can always be set
/// for a window length that is already configured: it replaces that one
/// entry in place, however many limits the token has. A new window length
/// is added at the end while the token has fewer than
/// [`MAX_LIMITS_PER_TOKEN`] limits, and refused with `MathOverflow` only
/// when it has that many already.
pub proof fn law_valid_limit_is_settable(limits: Seq<Limit>, limit: Limit)
    requires
        limit.limit_time > 0,
        limit.limit_value >= 0,
    ensures
        has_limit(limits, limit.limit_time) ==> ({
            let r = spec_set_limit(limits, limit);
            &&& r is Ok
            &&& r->Ok_0.len() == limits.len()
            &&& exists|i: int|
                0 <= i < limits.len() && limits[i].limit_time == limit.limit_time && r->Ok_0[i] == limit
                    && forall|j: int| 0 <= j < limits.len() && j != i ==> #[trigger] r->Ok_0[j] == limits[j]
        }),
        !has_limit(limits, limit.limit_time) && limits.len() < MAX_LIMITS_PER_TOKEN ==> spec_set_limit(
            limits,
            limit,
        ) == Ok::<Seq<Limit>, ComplianceModuleError>(limits.push(limit)),
        !has_limit(limits, limit.limit_time) && limits.len() >= MAX_LIMITS_PER_TOKEN ==> spec_set_limit(
            limits,
            limit,
        ) == Err::<Seq<Limit>, ComplianceModuleError>(ComplianceModuleError::MathOverflow),
{
    if has_limit(limits, limit.limit_time) {
        lemma_limit_index(limits, limit.limit_time);
        let k = limit_index(limits, limit.limit_time);
        let l = limits.update(k, limit);
        assert(limits[k].limit_time == limit.limit_time && l[k] == limit);
        assert forall|j: int| 0 <= j < limits.len() && j != k implies #[trigger] l[j] == limits[j] by {}
    }
}

} // verus!
