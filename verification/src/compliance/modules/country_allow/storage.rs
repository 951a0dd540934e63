//! Storage of the country allowlist: the allowed `(token, country)`
//! pairs.

use super::CountryAllow;
use vstd::prelude::*;

verus! {

/// The keys under which the allowlist is stored.
#[derive(Clone, Copy, Debug, PartialEq, Eq, Structural)]
pub enum CountryAllowStorageKey {
    /// The allowlist entry of a `(token, country)`.
    AllowedCountry(u64, u32),
}

/// Whether `country` is on the allowlist of `token`.
pub fn is_country_allowed(st: &CountryAllow, token: u64, country: u32) -> (b: bool)
    ensures
        b == st.allowed@.contains((token, country as u64)),
{
    st.allowed.contains(token, country as u64)
}

/// Adds `country` to the allowlist of `token`.
pub fn set_country_allowed(st: &mut CountryAllow, token: u64, country: u32)
    ensures
        final(st).allowed@ == old(st).allowed@.insert((token, country as u64)),
        final(st).config == old(st).config,
{
    st.allowed.insert(token, country as u64);
}

/// Removes `country` from the allowlist of `token`.
pub fn remove_country_allowed(st: &mut CountryAllow, token: u64, country: u32)
    ensures
        final(st).allowed@ == old(st).allowed@.remove((token, country as u64)),
        final(st).config == old(st).config,
{
    st.allowed.remove(token, country as u64);
}

} // verus!
