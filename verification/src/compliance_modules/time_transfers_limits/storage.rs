//! Storage of the time-windowed transfer limits module: the limits of
//! each token, and a transfer counter per `(token, identity, window)`.

use super::{TimeTransfersLimits, TimeLimitsView};
use std::collections::HashMap;
use vstd::prelude::*;

verus! {

broadcast use vstd::std_specs::hash::group_hash_axioms;

/// A cap of `limit_value` tokens per window of `limit_time` seconds.
#[derive(Clone, Copy, Debug, PartialEq, Eq, Structural)]
pub struct Limit {
    /// The window length in seconds.
    pub limit_time: u64,
    /// The most tokens an identity may send within one window.
    pub limit_value: i128,
}

/// The tokens an identity sent in its current window, and when the
/// window ends.
#[derive(Clone, Copy, Debug, PartialEq, Eq, Structural)]
pub struct TransferCounter {
    /// The tokens sent in the current window.
    pub value: i128,
    /// The ledger time at which the window ends.
    pub timer: u64,
}

/// The keys under which the module's values are stored.
#[derive(Clone, Copy, Debug, PartialEq, Eq, Structural)]
pub enum TimeTransfersLimitsStorageKey {
    /// The limits of a token.
    Limits(u64),
    /// The counter of a `(token, identity, window length)`.
    Counter(u64, u64, u64),
}

/// A copy of a list of limits.
pub fn copy_limits(limits: &Vec<Limit>) -> (r: Vec<Limit>)
    ensures
        r@ == limits@,
{
    let mut r: Vec<Limit> = Vec::new();
    let n = limits.len();
    for i in 0..n
        invariant
            n == limits.len(),
            r@ == limits@.take(i as int),
    {
        r.push(limits[i]);
        assert(r@ =~= limits@.take(i + 1));
    }
    assert(r@ =~= limits@);
    r
}

/// The limits of `token` (none when unset).
pub fn get_limits(st: &TimeTransfersLimits, token: u64) -> (l: Vec<Limit>)
    ensures
        l@ == st.view().limits_of(token),
{
    match st.limits.get(&token) {
        Some(v) => copy_limits(v),
        None => Vec::new(),
    }
}

/// Replaces the limits of `token`.
pub fn set_limits(st: &mut TimeTransfersLimits, token: u64, limits: &Vec<Limit>)
    ensures
        final(st).view() == (TimeLimitsView {
            limits: old(st).view().limits.insert(token, limits@),
            ..old(st).view()
        }),
{
    let v = copy_limits(limits);
    st.limits.insert(token, v);
    assert(st.view().limits =~= old(st).view().limits.insert(token, limits@));
}

/// The counter of `identity` for windows of `limit_time` seconds on
/// `token` (zero, with an elapsed window, when unset).
pub fn get_counter(st: &TimeTransfersLimits, token: u64, identity: u64, limit_time: u64) -> (c:
    TransferCounter)
    ensures
        c == st.view().counter_of(token, identity, limit_time),
{
    match st.counters.get(token, identity) {
        Some(m) => match m.get(&limit_time) {
            Some(c) => *c,
            None => TransferCounter { value: 0, timer: 0 },
        },
        None => TransferCounter { value: 0, timer: 0 },
    }
}

/// Sets the counter of `identity` for windows of `limit_time` seconds on
/// `token`.
pub fn set_counter(
    st: &mut TimeTransfersLimits,
    token: u64,
    identity: u64,
    limit_time: u64,
    counter: &TransferCounter,
)
    ensures
        final(st).view() == (TimeLimitsView {
            counters: old(st).view().counters.insert((token, identity, limit_time), *counter),
            ..old(st).view()
        }),
{
    let mut inner = match st.counters.remove(token, identity) {
        Some(m) => m,
        None => HashMap::new(),
    };
    inner.insert(limit_time, *counter);
    st.counters.insert(token, identity, inner);
    assert(st.view().counters =~= old(st).view().counters.insert(
        (token, identity, limit_time),
        *counter,
    ));
}

} // verus!
