//! Time-windowed transfer limits module: caps the tokens that an identity
//! may send within each configured time window. Counters are kept per
//! identity, not per wallet, so one investor's wallets share them.

pub mod laws;
pub mod storage;

use crate::compliance::ComplianceHook;
use crate::compliance_modules::common::{
    all_registered, checked_add_i128, first_unregistered, fits_i128, module_name,
    require_non_negative_amount, set_irs_address, spec_compliance_address, verify_required_hooks,
    ModuleConfig,
};
use crate::compliance_modules::ComplianceModuleError;
use crate::keyed::PairMap;
use std::collections::HashMap;
use storage::{get_counter, get_limits, set_counter, set_limits};
use vstd::prelude::*;

pub use storage::{Limit, TransferCounter};

verus! {

broadcast use vstd::std_specs::hash::group_hash_axioms;

/// The most limits one token may have.
pub const MAX_LIMITS_PER_TOKEN: u32 = 4;

/// Event: a limit of `token` was added or replaced.
#[derive(Clone, Copy, Debug, PartialEq, Eq, Structural)]
pub struct TimeTransferLimitUpdated {
    /// The token.
    pub token: u64,
    /// The limit as now configured.
    pub limit: Limit,
}

/// Event: the limit for windows of `limit_time` seconds was removed.
#[derive(Clone, Copy, Debug, PartialEq, Eq, Structural)]
pub struct TimeTransferLimitRemoved {
    /// The token.
    pub token: u64,
    /// The window length of the removed limit.
    pub limit_time: u64,
}

/// The state of a time-windowed transfer limits module.
pub struct TimeTransfersLimits {
    /// The binding to the compliance contract and identity registries.
    pub config: ModuleConfig,
    /// The limits of each token.
    pub limits: HashMap<u64, Vec<Limit>>,
    /// The counters of each `(token, identity)`, by window length.
    pub counters: PairMap<HashMap<u64, TransferCounter>>,
}

/// The abstract state of the module.
pub struct TimeLimitsView {
    /// The binding to the compliance contract and identity registries.
    pub config: ModuleConfig,
    /// The limits of each token.
    pub limits: Map<u64, Seq<Limit>>,
    /// The counter of each `(token, identity, window length)`.
    pub counters: Map<(u64, u64, u64), TransferCounter>,
}

impl TimeLimitsView {
    /// The limits of `token` (none when unset).
    pub open spec fn limits_of(self, token: u64) -> Seq<Limit> {
        if self.limits.contains_key(token) {
            self.limits[token]
        } else {
            Seq::empty()
        }
    }

    /// The counter of `(token, identity, limit_time)` (zero, with an
    /// elapsed window, when unset).
    pub open spec fn counter_of(self, token: u64, identity: u64, limit_time: u64) -> TransferCounter {
        if self.counters.contains_key((token, identity, limit_time)) {
            self.counters[(token, identity, limit_time)]
        } else {
            TransferCounter { value: 0, timer: 0 }
        }
    }
}

impl TimeTransfersLimits {
    /// The abstract state.
    pub open spec fn view(&self) -> TimeLimitsView {
        TimeLimitsView {
            config: self.config,
            limits: self.limits@.map_values(|v: Vec<Limit>| v@),
            counters: Map::new(
                |k: (u64, u64, u64)|
                    self.counters.view().contains_key((k.0, k.1)) && self.counters.view()[(
                        k.0,
                        k.1,
                    )]@.contains_key(k.2),
                |k: (u64, u64, u64)| self.counters.view()[(k.0, k.1)]@[k.2],
            ),
        }
    }
}

// ################## SPECIFICATION ##################

/// `i` is the first position of a limit for windows of `limit_time`.
pub open spec fn limit_position(limits: Seq<Limit>, limit_time: u64, i: int) -> bool {
    &&& 0 <= i < limits.len()
    &&& limits[i].limit_time == limit_time
    &&& forall|j: int| 0 <= j < i ==> #[trigger] limits[j].limit_time != limit_time
}

/// Some limit is for windows of `limit_time`.
pub open spec fn has_limit(limits: Seq<Limit>, limit_time: u64) -> bool {
    exists|i: int| 0 <= i < limits.len() && #[trigger] limits[i].limit_time == limit_time
}

/// The first position of a limit for windows of `limit_time`.
pub open spec fn limit_index(limits: Seq<Limit>, limit_time: u64) -> int {
    choose|i: int| limit_position(limits, limit_time, i)
}

/// The limits after adding `limit`, or replacing the limit for the same
/// window length.
pub open spec fn spec_set_limit(limits: Seq<Limit>, limit: Limit) -> Result<Seq<Limit>, ComplianceModuleError> {
    if limit.limit_time == 0 {
        Err(ComplianceModuleError::ZeroLimitTime)
    } else if limit.limit_value < 0 {
        Err(ComplianceModuleError::InvalidAmount)
    } else if has_limit(limits, limit.limit_time) {
        Ok(limits.update(limit_index(limits, limit.limit_time), limit))
    } else if limits.len() >= MAX_LIMITS_PER_TOKEN {
        Err(ComplianceModuleError::MathOverflow)
    } else {
        Ok(limits.push(limit))
    }
}

/// The limits after setting the first `n` of `inputs` in turn.
pub open spec fn spec_batch_set(limits: Seq<Limit>, inputs: Seq<Limit>, n: nat) -> Result<
    Seq<Limit>,
    ComplianceModuleError,
>
    decreases n,
{
    if n == 0 {
        Ok(limits)
    } else {
        match spec_batch_set(limits, inputs, (n - 1) as nat) {
            Err(e) => Err(e),
            Ok(l) => spec_set_limit(l, inputs[n - 1]),
        }
    }
}

/// The limits after removing the limit for windows of `limit_time`.
pub open spec fn spec_remove_limit(limits: Seq<Limit>, limit_time: u64) -> Result<Seq<Limit>, ComplianceModuleError> {
    if has_limit(limits, limit_time) {
        Ok(limits.remove(limit_index(limits, limit_time)))
    } else {
        Err(ComplianceModuleError::MissingLimit)
    }
}

/// The limits after removing the first `n` window lengths of `inputs` in
/// turn.
pub open spec fn spec_batch_remove(limits: Seq<Limit>, inputs: Seq<u64>, n: nat) -> Result<
    Seq<Limit>,
    ComplianceModuleError,
>
    decreases n,
{
    if n == 0 {
        Ok(limits)
    } else {
        match spec_batch_remove(limits, inputs, (n - 1) as nat) {
            Err(e) => Err(e),
            Ok(l) => spec_remove_limit(l, inputs[n - 1]),
        }
    }
}

/// `now + limit_time`, saturating at `u64::MAX`.
pub open spec fn window_end(now: u64, limit_time: u64) -> u64 {
    if now + limit_time > u64::MAX {
        u64::MAX
    } else {
        (now + limit_time) as u64
    }
}

/// The counter with an elapsed window restarted at `now`.
pub open spec fn refreshed(c: TransferCounter, limit_time: u64, now: u64) -> TransferCounter {
    if c.timer <= now {
        TransferCounter { value: 0, timer: window_end(now, limit_time) }
    } else {
        c
    }
}

/// The state after adding `value` to `identity`'s counters for the first
/// `n` of `limits`, restarting elapsed windows first.
pub open spec fn spec_increase_counters(
    s: TimeLimitsView,
    token: u64,
    identity: u64,
    limits: Seq<Limit>,
    value: i128,
    now: u64,
    n: nat,
) -> Result<TimeLimitsView, ComplianceModuleError>
    decreases n,
{
    if n == 0 {
        Ok(s)
    } else {
        match spec_increase_counters(s, token, identity, limits, value, now, (n - 1) as nat) {
            Err(e) => Err(e),
            Ok(s1) => {
                let lt = limits[n - 1].limit_time;
                let c = refreshed(s1.counter_of(token, identity, lt), lt, now);
                if !fits_i128(c.value + value) {
                    Err(ComplianceModuleError::MathOverflow)
                } else {
                    Ok(
                        TimeLimitsView {
                            counters: s1.counters.insert(
                                (token, identity, lt),
                                TransferCounter { value: (c.value + value) as i128, timer: c.timer },
                            ),
                            ..s1
                        },
                    )
                }
            },
        }
    }
}

/// The state after `identity` sent `amount` of `token` at `now`.
pub open spec fn spec_on_transfer(s: TimeLimitsView, identity: u64, amount: i128, token: u64, now: u64) -> Result<
    TimeLimitsView,
    ComplianceModuleError,
> {
    if amount < 0 {
        Err(ComplianceModuleError::InvalidAmount)
    } else if !s.config.irs_view().contains_key(token) {
        Err(ComplianceModuleError::IdentityRegistryNotSet)
    } else {
        let limits = s.limits_of(token);
        spec_increase_counters(s, token, identity, limits, amount, now, limits.len())
    }
}

/// Whether sending `amount` stays within the first `n` of `limits`.
pub open spec fn spec_within_limits(
    s: TimeLimitsView,
    token: u64,
    identity: u64,
    limits: Seq<Limit>,
    amount: i128,
    now: u64,
    n: nat,
) -> Result<bool, ComplianceModuleError>
    decreases n,
{
    if n == 0 {
        Ok(true)
    } else {
        match spec_within_limits(s, token, identity, limits, amount, now, (n - 1) as nat) {
            Err(e) => Err(e),
            Ok(false) => Ok(false),
            Ok(true) => {
                let l = limits[n - 1];
                let c = s.counter_of(token, identity, l.limit_time);
                if amount > l.limit_value {
                    Ok(false)
                } else if c.timer <= now {
                    Ok(true)
                } else if !fits_i128(c.value + amount) {
                    Err(ComplianceModuleError::MathOverflow)
                } else {
                    Ok(c.value + amount <= l.limit_value)
                }
            },
        }
    }
}

/// Whether `identity` may send `amount` of `token` at `now`.
pub open spec fn spec_can_transfer(s: TimeLimitsView, identity: u64, amount: i128, token: u64, now: u64) -> Result<
    bool,
    ComplianceModuleError,
> {
    if !s.config.hooks_verified {
        Err(ComplianceModuleError::HooksNotVerified)
    } else if amount < 0 {
        Ok(false)
    } else if !s.config.irs_view().contains_key(token) {
        Err(ComplianceModuleError::IdentityRegistryNotSet)
    } else {
        let limits = s.limits_of(token);
        spec_within_limits(s, token, identity, limits, amount, now, limits.len())
    }
}

/// The hooks this module must be registered on.
pub open spec fn required_hooks_seq() -> Seq<ComplianceHook> {
    seq![ComplianceHook::CanTransfer, ComplianceHook::Transferred]
}

// ################## HELPERS ##################

/// Whether the window of the counter has elapsed at `now`.
fn is_counter_finished(st: &TimeTransfersLimits, token: u64, identity: u64, limit_time: u64, now: u64) -> (b:
    bool)
    ensures
        b == (st.view().counter_of(token, identity, limit_time).timer <= now),
{
    let counter = get_counter(st, token, identity, limit_time);
    counter.timer <= now
}

/// The counters `c` with those of `(token, identity)` replaced by `inner`
/// (keyed by window length).
pub open spec fn slice_replaced(
    c: Map<(u64, u64, u64), TransferCounter>,
    token: u64,
    identity: u64,
    inner: Map<u64, TransferCounter>,
) -> Map<(u64, u64, u64), TransferCounter> {
    Map::new(
        |k: (u64, u64, u64)|
            if k.0 == token && k.1 == identity {
                inner.contains_key(k.2)
            } else {
                c.contains_key(k)
            },
        |k: (u64, u64, u64)|
            if k.0 == token && k.1 == identity {
                inner[k.2]
            } else {
                c[k]
            },
    )
}

/// Once adding to the counters fails on a prefix of the limits, it fails
/// the same way on every longer prefix.
proof fn lemma_increase_err_stays(
    s: TimeLimitsView,
    token: u64,
    identity: u64,
    limits: Seq<Limit>,
    value: i128,
    now: u64,
    k: nat,
    n: nat,
)
    requires
        k <= n,
        spec_increase_counters(s, token, identity, limits, value, now, k) is Err,
    ensures
        spec_increase_counters(s, token, identity, limits, value, now, n) == spec_increase_counters(
            s,
            token,
            identity,
            limits,
            value,
            now,
            k,
        ),
    decreases n - k,
{
    if k < n {
        lemma_increase_err_stays(s, token, identity, limits, value, now, k, (n - 1) as nat);
    }
}

/// Adds `value` to `identity`'s counter for every limit of `token`,
/// restarting elapsed windows at `now` first.
fn increase_counters(st: &mut TimeTransfersLimits, token: u64, identity: u64, value: i128, now: u64) -> (r:
    Result<(), ComplianceModuleError>)
    ensures
        match spec_increase_counters(
            old(st).view(),
            token,
            identity,
            old(st).view().limits_of(token),
            value,
            now,
            old(st).view().limits_of(token).len(),
        ) {
            Ok(s) => r is Ok && final(st).view() == s,
            Err(e) => r == Err::<(), _>(e) && final(st).view() == old(st).view(),
        },
{
    let limits = get_limits(st, token);
    let ghost s0 = st.view();
    let mut inner: HashMap<u64, TransferCounter> = match st.counters.get(token, identity) {
        Some(m) => m.clone(),
        None => HashMap::new(),
    };
    assert(slice_replaced(s0.counters, token, identity, inner@) =~= s0.counters);
    let n = limits.len();
    let mut i: usize = 0;
    while i < n
        invariant
            n == limits.len(),
            0 <= i <= n,
            limits@ == s0.limits_of(token),
            st.view() == s0,
            spec_increase_counters(s0, token, identity, limits@, value, now, i as nat) == Ok::<
                TimeLimitsView,
                ComplianceModuleError,
            >(TimeLimitsView { counters: slice_replaced(s0.counters, token, identity, inner@), ..s0 }),
        decreases n - i,
    {
        let ghost sv = TimeLimitsView {
            counters: slice_replaced(s0.counters, token, identity, inner@),
            ..s0
        };
        let lt = limits[i].limit_time;
        let c = match inner.get(&lt) {
            Some(c) => *c,
            None => TransferCounter { value: 0, timer: 0 },
        };
        assert(c == sv.counter_of(token, identity, lt));
        let c = if c.timer <= now {
            TransferCounter { value: 0, timer: now.saturating_add(lt) }
        } else {
            c
        };
        let v = match checked_add_i128(c.value, value) {
            Ok(v) => v,
            Err(e) => {
                proof {
                    lemma_increase_err_stays(s0, token, identity, limits@, value, now, (i + 1) as nat, n as nat);
                }
                return Err(e);
            },
        };
        inner.insert(lt, TransferCounter { value: v, timer: c.timer });
        assert(slice_replaced(s0.counters, token, identity, inner@) =~= sv.counters.insert(
            (token, identity, lt),
            TransferCounter { value: v, timer: c.timer },
        ));
        i = i + 1;
    }
    st.counters.insert(token, identity, inner);
    assert(st.view().counters =~= slice_replaced(s0.counters, token, identity, inner@));
    assert(st.view().limits =~= s0.limits);
    Ok(())
}

/// The first position of a limit for windows of `limit_time`, if any.
fn find_limit(limits: &Vec<Limit>, limit_time: u64) -> (r: Option<usize>)
    ensures
        match r {
            Some(i) => limit_position(limits@, limit_time, i as int) && has_limit(limits@, limit_time)
                && limit_index(limits@, limit_time) == i,
            None => !has_limit(limits@, limit_time),
        },
{
    let n = limits.len();
    let mut i: usize = 0;
    while i < n
        invariant
            n == limits.len(),
            0 <= i <= n,
            forall|j: int| 0 <= j < i ==> #[trigger] limits@[j].limit_time != limit_time,
        decreases n - i,
    {
        if limits[i].limit_time == limit_time {
            assert(limit_position(limits@, limit_time, i as int));
            let ghost k = limit_index(limits@, limit_time);
            assert(limit_position(limits@, limit_time, k));
            assert(k == i) by {
                if k < i {
                    assert(limits@[k].limit_time != limit_time);
                } else if k > i {
                    assert(limits@[i as int].limit_time != limit_time);
                }
            }
            return Some(i);
        }
        i = i + 1;
    }
    None
}

/// `limits` with `limit` set: replacing the limit for the same window
/// length, else appending while fewer than [`MAX_LIMITS_PER_TOKEN`].
fn apply_set_limit(limits: &mut Vec<Limit>, limit: Limit) -> (r: Result<(), ComplianceModuleError>)
    ensures
        match spec_set_limit(old(limits)@, limit) {
            Ok(l) => r is Ok && final(limits)@ == l,
            Err(e) => r == Err::<(), _>(e) && final(limits)@ == old(limits)@,
        },
{
    if limit.limit_time == 0 {
        return Err(ComplianceModuleError::ZeroLimitTime);
    }
    require_non_negative_amount(limit.limit_value)?;
    match find_limit(limits, limit.limit_time) {
        Some(i) => {
            limits.set(i, limit);
            Ok(())
        },
        None => {
            if limits.len() >= 4 {
                return Err(ComplianceModuleError::MathOverflow);
            }
            limits.push(limit);
            Ok(())
        },
    }
}

/// `limits` without the limit for windows of `limit_time`.
fn apply_remove_limit(limits: &mut Vec<Limit>, limit_time: u64) -> (r: Result<(), ComplianceModuleError>)
    ensures
        match spec_remove_limit(old(limits)@, limit_time) {
            Ok(l) => r is Ok && final(limits)@ == l,
            Err(e) => r == Err::<(), _>(e) && final(limits)@ == old(limits)@,
        },
{
    match find_limit(limits, limit_time) {
        Some(i) => {
            limits.remove(i);
            Ok(())
        },
        None => Err(ComplianceModuleError::MissingLimit),
    }
}

/// The events for setting each of `limits` on `token`.
pub open spec fn updated_events(token: u64, limits: Seq<Limit>) -> Seq<TimeTransferLimitUpdated> {
    Seq::new(limits.len(), |i: int| TimeTransferLimitUpdated { token, limit: limits[i] })
}

/// The events for removing each window length of `limit_times` on `token`.
pub open spec fn removed_events(token: u64, limit_times: Seq<u64>) -> Seq<TimeTransferLimitRemoved> {
    Seq::new(limit_times.len(), |i: int| TimeTransferLimitRemoved { token, limit_time: limit_times[i] })
}

/// Once a batch fails on a prefix, it fails the same way on every longer
/// prefix.
proof fn lemma_batch_set_err_stays(limits: Seq<Limit>, inputs: Seq<Limit>, k: nat, n: nat)
    requires
        k <= n,
        spec_batch_set(limits, inputs, k) is Err,
    ensures
        spec_batch_set(limits, inputs, n) == spec_batch_set(limits, inputs, k),
    decreases n - k,
{
    if k < n {
        lemma_batch_set_err_stays(limits, inputs, k, (n - 1) as nat);
    }
}

/// Once a batch fails on a prefix, it fails the same way on every longer
/// prefix.
proof fn lemma_batch_remove_err_stays(limits: Seq<Limit>, inputs: Seq<u64>, k: nat, n: nat)
    requires
        k <= n,
        spec_batch_remove(limits, inputs, k) is Err,
    ensures
        spec_batch_remove(limits, inputs, n) == spec_batch_remove(limits, inputs, k),
    decreases n - k,
{
    if k < n {
        lemma_batch_remove_err_stays(limits, inputs, k, (n - 1) as nat);
    }
}

impl TimeTransfersLimits {
    /// A fresh module at `module_address`, with no limits and no counters.
    pub fn new(module_address: u64) -> (m: Self)
        ensures
            m.view().limits == Map::<u64, Seq<Limit>>::empty(),
            m.view().counters == Map::<(u64, u64, u64), TransferCounter>::empty(),
            m.config.module_address == module_address,
            m.config.compliance is None,
            !m.config.hooks_verified,
            m.config.irs_view() == Map::<u64, u64>::empty(),
    {
        let m = TimeTransfersLimits {
            config: ModuleConfig::new(module_address),
            limits: HashMap::new(),
            counters: PairMap::new(),
        };
        assert(m.view().limits =~= Map::<u64, Seq<Limit>>::empty());
        assert(m.view().counters =~= Map::<(u64, u64, u64), TransferCounter>::empty());
        m
    }

    /// Records `irs` as the identity registry of `token`.
    pub fn set_identity_registry_storage(&mut self, token: u64, irs: u64)
        ensures
            final(self).config.irs_view() == old(self).config.irs_view().insert(token, irs),
            final(self).config.module_address == old(self).config.module_address,
            final(self).config.compliance == old(self).config.compliance,
            final(self).config.hooks_verified == old(self).config.hooks_verified,
            final(self).view().limits == old(self).view().limits,
            final(self).view().counters == old(self).view().counters,
    {
        set_irs_address(&mut self.config, token, irs);
    }

    /// Adds `limit` to `token`, or replaces the limit for the same window
    /// length; a token has at most [`MAX_LIMITS_PER_TOKEN`] limits.
    pub fn set_time_transfer_limit(&mut self, token: u64, limit: Limit) -> (r: Result<
        TimeTransferLimitUpdated,
        ComplianceModuleError,
    >)
        ensures
            match spec_set_limit(old(self).view().limits_of(token), limit) {
                Ok(l) => r == Ok::<_, ComplianceModuleError>(TimeTransferLimitUpdated { token, limit })
                    && final(self).view() == (TimeLimitsView {
                    limits: old(self).view().limits.insert(token, l),
                    ..old(self).view()
                }),
                Err(e) => r == Err::<TimeTransferLimitUpdated, _>(e) && final(self).view() == old(self).view(),
            },
    {
        let mut limits = get_limits(self, token);
        apply_set_limit(&mut limits, limit)?;
        set_limits(self, token, &limits);
        Ok(TimeTransferLimitUpdated { token, limit })
    }

    /// Sets each of `limits` in turn; if any is refused, none is set.
    pub fn batch_set_time_transfer_limit(&mut self, token: u64, limits: &Vec<Limit>) -> (r: Result<
        Vec<TimeTransferLimitUpdated>,
        ComplianceModuleError,
    >)
        ensures
            match spec_batch_set(old(self).view().limits_of(token), limits@, limits@.len()) {
                Ok(l) => r is Ok && r->Ok_0@ == updated_events(token, limits@) && final(self).view()
                    == (TimeLimitsView {
                    limits: old(self).view().limits.insert(token, l),
                    ..old(self).view()
                }),
                Err(e) => r == Err::<Vec<TimeTransferLimitUpdated>, _>(e) && final(self).view()
                    == old(self).view(),
            },
    {
        let mut current = get_limits(self, token);
        let ghost start = current@;
        let mut events: Vec<TimeTransferLimitUpdated> = Vec::new();
        let n = limits.len();
        let mut i: usize = 0;
        while i < n
            invariant
                n == limits.len(),
                0 <= i <= n,
                start == old(self).view().limits_of(token),
                *self == *old(self),
                spec_batch_set(start, limits@, i as nat) == Ok::<Seq<Limit>, ComplianceModuleError>(
                    current@,
                ),
                events@ == updated_events(token, limits@.take(i as int)),
            decreases n - i,
        {
            match apply_set_limit(&mut current, limits[i]) {
                Ok(()) => {},
                Err(e) => {
                    proof {
                        lemma_batch_set_err_stays(start, limits@, (i + 1) as nat, n as nat);
                    }
                    return Err(e);
                },
            }
            events.push(TimeTransferLimitUpdated { token, limit: limits[i] });
            assert(events@ =~= updated_events(token, limits@.take(i + 1)));
            i = i + 1;
        }
        assert(limits@.take(n as int) =~= limits@);
        set_limits(self, token, &current);
        Ok(events)
    }

    /// Removes the limit for windows of `limit_time` from `token`.
    pub fn remove_time_transfer_limit(&mut self, token: u64, limit_time: u64) -> (r: Result<
        TimeTransferLimitRemoved,
        ComplianceModuleError,
    >)
        ensures
            match spec_remove_limit(old(self).view().limits_of(token), limit_time) {
                Ok(l) => r == Ok::<_, ComplianceModuleError>(TimeTransferLimitRemoved { token, limit_time })
                    && final(self).view() == (TimeLimitsView {
                    limits: old(self).view().limits.insert(token, l),
                    ..old(self).view()
                }),
                Err(e) => r == Err::<TimeTransferLimitRemoved, _>(e) && final(self).view() == old(self).view(),
            },
    {
        let mut limits = get_limits(self, token);
        apply_remove_limit(&mut limits, limit_time)?;
        set_limits(self, token, &limits);
        Ok(TimeTransferLimitRemoved { token, limit_time })
    }

    /// Removes the limit for each window length of `limit_times` in turn;
    /// if any is missing, none is removed.
    pub fn batch_remove_time_transfer_limit(&mut self, token: u64, limit_times: &Vec<u64>) -> (r: Result<
        Vec<TimeTransferLimitRemoved>,
        ComplianceModuleError,
    >)
        ensures
            match spec_batch_remove(old(self).view().limits_of(token), limit_times@, limit_times@.len()) {
                Ok(l) => r is Ok && r->Ok_0@ == removed_events(token, limit_times@) && final(self).view()
                    == (TimeLimitsView {
                    limits: old(self).view().limits.insert(token, l),
                    ..old(self).view()
                }),
                Err(e) => r == Err::<Vec<TimeTransferLimitRemoved>, _>(e) && final(self).view() == old(self).view(),
            },
    {
        let mut current = get_limits(self, token);
        let ghost start = current@;
        let mut events: Vec<TimeTransferLimitRemoved> = Vec::new();
        let n = limit_times.len();
        let mut i: usize = 0;
        while i < n
            invariant
                n == limit_times.len(),
                0 <= i <= n,
                start == old(self).view().limits_of(token),
                *self == *old(self),
                spec_batch_remove(start, limit_times@, i as nat) == Ok::<Seq<Limit>, ComplianceModuleError>(
                    current@,
                ),
                events@ == removed_events(token, limit_times@.take(i as int)),
            decreases n - i,
        {
            match apply_remove_limit(&mut current, limit_times[i]) {
                Ok(()) => {},
                Err(e) => {
                    proof {
                        lemma_batch_remove_err_stays(start, limit_times@, (i + 1) as nat, n as nat);
                    }
                    return Err(e);
                },
            }
            events.push(TimeTransferLimitRemoved { token, limit_time: limit_times[i] });
            assert(events@ =~= removed_events(token, limit_times@.take(i + 1)));
            i = i + 1;
        }
        assert(limit_times@.take(n as int) =~= limit_times@);
        set_limits(self, token, &current);
        Ok(events)
    }

    /// Seeds `identity`'s counter for the existing limit with windows of
    /// `limit_time` seconds.
    pub fn pre_set_transfer_counter(
        &mut self,
        token: u64,
        identity: u64,
        limit_time: u64,
        counter: TransferCounter,
    ) -> (r: Result<(), ComplianceModuleError>)
        ensures
            counter.value < 0 ==> r == Err::<(), _>(ComplianceModuleError::InvalidAmount),
            counter.value >= 0 && limit_time == 0 ==> r == Err::<(), _>(
                ComplianceModuleError::ZeroLimitTime,
            ),
            counter.value >= 0 && limit_time > 0 && !has_limit(old(self).view().limits_of(token), limit_time)
                ==> r == Err::<(), _>(ComplianceModuleError::MissingLimit),
            r is Err ==> final(self).view() == old(self).view(),
            counter.value >= 0 && limit_time > 0 && has_limit(old(self).view().limits_of(token), limit_time)
                ==> r is Ok && final(self).view() == (TimeLimitsView {
                counters: old(self).view().counters.insert((token, identity, limit_time), counter),
                ..old(self).view()
            }),
    {
        require_non_negative_amount(counter.value)?;
        if limit_time == 0 {
            return Err(ComplianceModuleError::ZeroLimitTime);
        }
        let limits = get_limits(self, token);
        if find_limit(&limits, limit_time).is_none() {
            return Err(ComplianceModuleError::MissingLimit);
        }
        set_counter(self, token, identity, limit_time, &counter);
        Ok(())
    }

    /// The limits of `token`.
    pub fn get_time_transfer_limits(&self, token: u64) -> (l: Vec<Limit>)
        ensures
            l@ == self.view().limits_of(token),
    {
        get_limits(self, token)
    }

    /// The hooks this module must be registered on.
    pub fn required_hooks() -> (r: Vec<ComplianceHook>)
        ensures
            r@ == required_hooks_seq(),
    {
        vec![ComplianceHook::CanTransfer, ComplianceHook::Transferred]
    }

    /// Verifies the hook wiring; `registered[i]` answers for the `i`-th
    /// hook of [`Self::required_hooks`].
    pub fn verify_hook_wiring(&mut self, registered: &Vec<bool>) -> (r: Result<(), ComplianceModuleError>)
        requires
            registered.len() == 2,
        ensures
            final(self).view().limits == old(self).view().limits,
            final(self).view().counters == old(self).view().counters,
            old(self).config.compliance is None ==> r is Ok && final(self).config == old(self).config,
            old(self).config.compliance is Some && all_registered(registered@) ==> r is Ok
                && final(self).config == (ModuleConfig { hooks_verified: true, ..old(self).config }),
            old(self).config.compliance is Some && !all_registered(registered@) ==> final(self).config
                == old(self).config && exists|i: int|
                first_unregistered(registered@, i) && r == Err::<(), _>(
                    ComplianceModuleError::MissingRequiredHook(required_hooks_seq()[i]),
                ),
    {
        let required = Self::required_hooks();
        verify_required_hooks(&mut self.config, &required, registered)
    }

    /// Records that `from_identity` (the identity registry's identity of
    /// the sender) sent `amount` of `token` at `now`.
    pub fn on_transfer(&mut self, from_identity: u64, amount: i128, token: u64, now: u64) -> (r: Result<
        (),
        ComplianceModuleError,
    >)
        ensures
            match spec_on_transfer(old(self).view(), from_identity, amount, token, now) {
                Ok(s) => r is Ok && final(self).view() == s,
                Err(e) => r == Err::<(), _>(e) && final(self).view() == old(self).view(),
            },
    {
        require_non_negative_amount(amount)?;
        crate::compliance_modules::common::get_irs_client(&self.config, token)?;
        increase_counters(self, token, from_identity, amount, now)
    }

    /// Mints are not tracked by this module.
    pub fn on_created(&mut self, _to: u64, _amount: i128, _token: u64)
        ensures
            *final(self) == *old(self),
    {
    }

    /// Burns are not tracked by this module.
    pub fn on_destroyed(&mut self, _from: u64, _amount: i128, _token: u64)
        ensures
            *final(self) == *old(self),
    {
    }

    /// Whether `from_identity` may send `amount` of `token` at `now`
    /// without exceeding any limit within its current window.
    pub fn can_transfer(&self, from_identity: u64, amount: i128, token: u64, now: u64) -> (r: Result<
        bool,
        ComplianceModuleError,
    >)
        ensures
            r == spec_can_transfer(self.view(), from_identity, amount, token, now),
    {
        if !self.config.hooks_verified {
            return Err(ComplianceModuleError::HooksNotVerified);
        }
        if amount < 0 {
            return Ok(false);
        }
        crate::compliance_modules::common::get_irs_client(&self.config, token)?;
        let limits = get_limits(self, token);
        let n = limits.len();
        let mut i: usize = 0;
        while i < n
            invariant
                n == limits.len(),
                0 <= i <= n,
                limits@ == self.view().limits_of(token),
                amount >= 0,
                self.config.hooks_verified,
                self.config.irs_view().contains_key(token),
                spec_within_limits(self.view(), token, from_identity, limits@, amount, now, i as nat)
                    == Ok::<bool, ComplianceModuleError>(true),
            decreases n - i,
        {
            let limit = limits[i];
            if amount > limit.limit_value {
                proof {
                    lemma_within_false_stays(self.view(), token, from_identity, limits@, amount, now, (i + 1) as nat, n as nat);
                }
                return Ok(false);
            }
            if !is_counter_finished(self, token, from_identity, limit.limit_time, now) {
                let counter = get_counter(self, token, from_identity, limit.limit_time);
                let sum = match checked_add_i128(counter.value, amount) {
                    Ok(v) => v,
                    Err(e) => {
                        proof {
                            lemma_within_false_stays(self.view(), token, from_identity, limits@, amount, now, (i + 1) as nat, n as nat);
                        }
                        return Err(e);
                    },
                };
                if sum > limit.limit_value {
                    proof {
                        lemma_within_false_stays(self.view(), token, from_identity, limits@, amount, now, (i + 1) as nat, n as nat);
                    }
                    return Ok(false);
                }
            }
            i = i + 1;
        }
        Ok(true)
    }

    /// Mints are never refused by this module.
    pub fn can_create(&self, _to: u64, _amount: i128, _token: u64) -> (r: bool)
        ensures
            r,
    {
        true
    }

    /// The module's name.
    pub fn name() -> (s: String)
        ensures
            s@ == "TimeTransfersLimitsModule"@,
    {
        module_name("TimeTransfersLimitsModule")
    }

    /// The compliance contract's address, or the module's own while unset.
    pub fn get_compliance_address(&self) -> (a: u64)
        ensures
            a == spec_compliance_address(&self.config),
    {
        crate::compliance_modules::common::get_compliance_address(&self.config)
    }

    /// Binds the module to its compliance contract (one time only).
    pub fn set_compliance_address(&mut self, compliance: u64) -> (r: Result<(), ComplianceModuleError>)
        ensures
            old(self).config.compliance is Some ==> r == Err::<(), _>(
                ComplianceModuleError::ComplianceAddressAlreadySet,
            ) && *final(self) == *old(self),
            old(self).config.compliance is None ==> r is Ok && final(self).config == (ModuleConfig {
                compliance: Some(compliance),
                ..old(self).config
            }) && final(self).limits == old(self).limits && final(self).counters == old(self).counters,
    {
        crate::compliance_modules::common::set_compliance_address(&mut self.config, compliance)
    }
}

/// Once the check fails or refuses on a prefix of the limits, the result
/// stays the same on every longer prefix.
proof fn lemma_within_false_stays(
    s: TimeLimitsView,
    token: u64,
    identity: u64,
    limits: Seq<Limit>,
    amount: i128,
    now: u64,
    k: nat,
    n: nat,
)
    requires
        k <= n,
        spec_within_limits(s, token, identity, limits, amount, now, k) != Ok::<bool, ComplianceModuleError>(true),
    ensures
        spec_within_limits(s, token, identity, limits, amount, now, n) == spec_within_limits(
            s,
            token,
            identity,
            limits,
            amount,
            now,
            k,
        ),
    decreases n - k,
{
    if k < n {
        lemma_within_false_stays(s, token, identity, limits, amount, now, k, (n - 1) as nat);
    }
}

} // verus!
