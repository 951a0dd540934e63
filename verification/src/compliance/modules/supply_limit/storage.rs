//! The logic of the supply limit module (earlier generation), in which
//! the cap applies as it stands: an unset cap reads as 0 and admits no
//! mint of a positive amount.

use crate::compliance_modules::supply_limit::{can_create_with, spec_can_create, SupplyLimit};
use crate::compliance_modules::ComplianceModuleError;
use vstd::prelude::*;

pub use crate::compliance_modules::supply_limit::storage::{
    get_internal_supply, get_supply_limit, get_supply_limit_or_panic, set_internal_supply,
    set_supply_limit, SupplyLimitStorageKey,
};
pub use crate::compliance_modules::supply_limit::{
    configure_supply_limit, on_created, on_destroyed, pre_set_supply, required_hooks,
    verify_hook_wiring,
};

verus! {

/// Whether `amount` of `token` may be minted under the cap.
pub fn can_create(st: &SupplyLimit, amount: i128, token: u64) -> (r: Result<bool, ComplianceModuleError>)
    ensures
        r == spec_can_create(st.view(), amount, token, false),
{
    can_create_with(st, amount, token, false)
}

} // verus!
