//! Country allowlist module (earlier generation): only recipients whose
//! identity has at least one country on the allowlist may receive tokens.

pub mod storage;

use vstd::prelude::*;

pub use crate::compliance_modules::country_allow::CountryAllow;

verus! {

/// Event: `country` was added to the allowlist of `token`.
#[derive(Clone, Copy, Debug, PartialEq, Eq, Structural)]
pub struct CountryAllowed {
    /// The token.
    pub token: u64,
    /// The ISO 3166-1 numeric country code.
    pub country: u32,
}

/// Event: `country` was removed from the allowlist of `token`.
#[derive(Clone, Copy, Debug, PartialEq, Eq, Structural)]
pub struct CountryUnallowed {
    /// The token.
    pub token: u64,
    /// The ISO 3166-1 numeric country code.
    pub country: u32,
}

} // verus!
