//! Storage of the supply limit module: the cap of each token and the
//! module's own count of each token's supply. Absent entries read as 0.

use super::{SupplyLimit, SupplyLimitView};
use crate::compliance_modules::ComplianceModuleError;
use vstd::prelude::*;

verus! {

broadcast use vstd::std_specs::hash::group_hash_axioms;

/// The keys under which the module's values are stored.
#[derive(Clone, Copy, Debug, PartialEq, Eq, Structural)]
pub enum SupplyLimitStorageKey {
    /// The supply cap of a token.
    SupplyLimit(u64),
    /// The supply of a token, as counted by the module's hooks.
    InternalSupply(u64),
}

/// The supply cap of `token` (0 when unset).
pub fn get_supply_limit(st: &SupplyLimit, token: u64) -> (l: i128)
    ensures
        l == st.view().limit_of(token),
{
    match st.limits.get(&token) {
        Some(l) => *l,
        None => 0,
    }
}

/// The supply cap of `token`, or `MissingLimit` when none was configured.
pub fn get_supply_limit_or_panic(st: &SupplyLimit, token: u64) -> (r: Result<i128, ComplianceModuleError>)
    ensures
        st.view().limits.contains_key(token) ==> r == Ok::<i128, ComplianceModuleError>(
            st.view().limits[token],
        ),
        !st.view().limits.contains_key(token) ==> r == Err::<i128, _>(
            ComplianceModuleError::MissingLimit,
        ),
{
    match st.limits.get(&token) {
        Some(l) => Ok(*l),
        None => Err(ComplianceModuleError::MissingLimit),
    }
}

/// Sets the supply cap of `token`.
pub fn set_supply_limit(st: &mut SupplyLimit, token: u64, limit: i128)
    ensures
        final(st).view() == (SupplyLimitView {
            limits: old(st).view().limits.insert(token, limit),
            ..old(st).view()
        }),
{
    st.limits.insert(token, limit);
}

/// The supply of `token` counted so far (0 when unset).
pub fn get_internal_supply(st: &SupplyLimit, token: u64) -> (s: i128)
    ensures
        s == st.view().supply_of(token),
{
    match st.supplies.get(&token) {
        Some(s) => *s,
        None => 0,
    }
}

/// Sets the counted supply of `token`.
pub fn set_internal_supply(st: &mut SupplyLimit, token: u64, supply: i128)
    ensures
        final(st).view() == old(st).view().with_supply(token, supply),
{
    st.supplies.insert(token, supply);
}

} // verus!
