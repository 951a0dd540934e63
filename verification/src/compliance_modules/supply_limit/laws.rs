//! Properties of the supply limit module: what the check admits keeps the
//! counted supply within the cap, and a burn undoes a mint.

use super::{spec_can_create, spec_on_created, spec_on_destroyed, SupplyLimitView};
use crate::compliance_modules::ComplianceModuleError;
use vstd::prelude::*;

verus! {

/// A mint that the check admitted, where a cap applies, is recorded
/// without refusal and leaves the counted supply within the cap; no other
/// token's supply and no cap changes.
pub proof fn law_admitted_mint_stays_within_cap(
    s: SupplyLimitView,
    amount: i128,
    token: u64,
    zero_is_unlimited: bool,
)
    requires
        spec_can_create(s, amount, token, zero_is_unlimited) == Ok::<bool, ComplianceModuleError>(true),
        !zero_is_unlimited || s.limit_of(token) != 0,
    ensures
        spec_on_created(s, amount, token) is Ok,
        ({
            let s2 = spec_on_created(s, amount, token)->Ok_0;
            &&& s2.supply_of(token) == s.supply_of(token) + amount
            &&& s2.supply_of(token) <= s2.limit_of(token)
            &&& s2.limits == s.limits
            &&& forall|t: u64| t != token ==> #[trigger] s2.supply_of(t) == s.supply_of(t)
        }),
{
}

/// Burning what was just minted restores the counted supply of every
/// token.
pub proof fn law_burn_undoes_mint(s: SupplyLimitView, amount: i128, token: u64)
    requires
        spec_on_created(s, amount, token) is Ok,
    ensures
        spec_on_destroyed(spec_on_created(s, amount, token)->Ok_0, amount, token) is Ok,
        ({
            let s3 = spec_on_destroyed(spec_on_created(s, amount, token)->Ok_0, amount, token)->Ok_0;
            &&& forall|t: u64| #[trigger] s3.supply_of(t) == s.supply_of(t)
            &&& s3.limits == s.limits
            &&& s3.config == s.config
        }),
{
}

} // verus!
