//! Storage of the country restriction list: the restricted `(token, country)`
//! pairs.

use super::CountryRestrict;
use vstd::prelude::*;

verus! {

/// The keys under which the restriction list is stored.
#[derive(Clone, Copy, Debug, PartialEq, Eq, Structural)]
pub enum CountryRestrictStorageKey {
    /// The restriction list entry of a `(token, country)`.
    RestrictedCountry(u64, u32),
}

/// Whether `country` is on the restriction list of `token`.
pub fn is_country_restricted(st: &CountryRestrict, token: u64, country: u32) -> (b: bool)
    ensures
        b == st.restricted@.contains((token, country as u64)),
{
    st.restricted.contains(token, country as u64)
}

/// Adds `country` to the restriction list of `token`.
pub fn set_country_restricted(st: &mut CountryRestrict, token: u64, country: u32)
    ensures
        final(st).restricted@ == old(st).restricted@.insert((token, country as u64)),
        final(st).config == old(st).config,
{
    st.restricted.insert(token, country as u64);
}

/// Removes `country` from the restriction list of `token`.
pub fn remove_country_restricted(st: &mut CountryRestrict, token: u64, country: u32)
    ensures
        final(st).restricted@ == old(st).restricted@.remove((token, country as u64)),
        final(st).config == old(st).config,
{
    st.restricted.remove(token, country as u64);
}

} // verus!
