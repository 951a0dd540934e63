//! Properties of the country lists: a restriction list blocks exactly the
//! recipients that an allowlist of the same countries admits.

use crate::compliance_modules::common::ModuleConfig;
use crate::compliance_modules::{country_allow, country_restrict};
use crate::identity_registry_storage::CountryData;
use vstd::prelude::*;

verus! {

/// With the same countries listed, the restriction module admits a
/// recipient exactly when the allowlist module refuses it; both refuse to
/// answer for a token without an identity registry.
pub proof fn law_restriction_complements_allowlist(
    config: ModuleConfig,
    list: Set<(u64, u64)>,
    to_entries: Seq<CountryData>,
    token: u64,
)
    ensures
        country_restrict::spec_can_transfer(config, list, to_entries, token) is Ok
            <==> country_allow::spec_can_transfer(config, list, to_entries, token) is Ok,
        country_restrict::spec_can_transfer(config, list, to_entries, token) is Ok ==> country_restrict::spec_can_transfer(
            config,
            list,
            to_entries,
            token,
        )->Ok_0 == !country_allow::spec_can_transfer(config, list, to_entries, token)->Ok_0,
{
}

} // verus!
