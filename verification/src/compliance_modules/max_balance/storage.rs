//! Storage of the max balance module: the cap of each token and the
//! balance of each `(token, identity)`. Absent entries read as 0.

use super::{MaxBalance, MaxBalanceView};
use vstd::prelude::*;

verus! {

broadcast use vstd::std_specs::hash::group_hash_axioms;

/// The keys under which the module's values are stored.
#[derive(Clone, Copy, Debug, PartialEq, Eq, Structural)]
pub enum MaxBalanceStorageKey {
    /// The cap of a token.
    MaxBalance(u64),
    /// The balance of a `(token, identity)`.
    IDBalance(u64, u64),
}

/// The cap of `token` (0 when unset).
pub fn get_max_balance(st: &MaxBalance, token: u64) -> (m: i128)
    ensures
        m == st.view().max_of(token),
{
    match st.max_balances.get(&token) {
        Some(m) => *m,
        None => 0,
    }
}

/// Sets the cap of `token`.
pub fn set_max_balance(st: &mut MaxBalance, token: u64, value: i128)
    ensures
        final(st).view() == (MaxBalanceView {
            max: old(st).view().max.insert(token, value),
            ..old(st).view()
        }),
{
    st.max_balances.insert(token, value);
}

/// The balance of `identity` in `token` (0 when unset).
pub fn get_id_balance(st: &MaxBalance, token: u64, identity: u64) -> (b: i128)
    ensures
        b == st.view().balance_of(token, identity),
{
    match st.id_balances.get(token, identity) {
        Some(b) => *b,
        None => 0,
    }
}

/// Sets the balance of `identity` in `token`.
pub fn set_id_balance(st: &mut MaxBalance, token: u64, identity: u64, balance: i128)
    ensures
        final(st).view() == (MaxBalanceView {
            balances: old(st).view().balances.insert((token, identity), balance),
            ..old(st).view()
        }),
{
    st.id_balances.insert(token, identity, balance);
}

} // verus!
