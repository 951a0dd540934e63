//! The logic of the max balance module (earlier generation), in which a
//! cap of 0 admits nothing. Identities are the identity registry's
//! answers for the wallets involved.

use crate::compliance_modules::max_balance::{
    can_create_with, can_transfer_with, on_created_with, on_destroyed_with, on_transfer_with,
    spec_can_create, spec_can_transfer, spec_on_created, spec_on_destroyed, spec_on_transfer,
    MaxBalance,
};
use crate::compliance_modules::ComplianceModuleError;
use vstd::prelude::*;

pub use crate::compliance_modules::max_balance::storage::{
    get_id_balance, get_max_balance, set_id_balance, set_max_balance, MaxBalanceStorageKey,
};
pub use crate::compliance_modules::max_balance::{
    batch_pre_set_identity_balances, configure_max_balance, pre_set_identity_balance,
    required_hooks, verify_hook_wiring,
};

verus! {

/// Records a transfer between identities `from_id` and `to_id`.
pub fn on_transfer(st: &mut MaxBalance, from_id: u64, to_id: u64, amount: i128, token: u64) -> (r: Result<
    (),
    ComplianceModuleError,
>)
    ensures
        match spec_on_transfer(old(st).view(), from_id, to_id, amount, token, false) {
            Ok(s) => r is Ok && final(st).view() == s,
            Err(e) => r == Err::<(), _>(e) && final(st).view() == old(st).view(),
        },
{
    on_transfer_with(st, from_id, to_id, amount, token, false)
}

/// Records a mint to identity `to_id`.
pub fn on_created(st: &mut MaxBalance, to_id: u64, amount: i128, token: u64) -> (r: Result<(), ComplianceModuleError>)
    ensures
        match spec_on_created(old(st).view(), to_id, amount, token, false) {
            Ok(s) => r is Ok && final(st).view() == s,
            Err(e) => r == Err::<(), _>(e) && final(st).view() == old(st).view(),
        },
{
    on_created_with(st, to_id, amount, token, false)
}

/// Records a burn from identity `from_id`.
pub fn on_destroyed(st: &mut MaxBalance, from_id: u64, amount: i128, token: u64) -> (r: Result<
    (),
    ComplianceModuleError,
>)
    ensures
        match spec_on_destroyed(old(st).view(), from_id, amount, token) {
            Ok(s) => r is Ok && final(st).view() == s,
            Err(e) => r == Err::<(), _>(e) && final(st).view() == old(st).view(),
        },
{
    on_destroyed_with(st, from_id, amount, token)
}

/// Whether identity `from_id` may send `amount` to identity `to_id`.
pub fn can_transfer(st: &MaxBalance, from_id: u64, to_id: u64, amount: i128, token: u64) -> (r: Result<
    bool,
    ComplianceModuleError,
>)
    ensures
        r == spec_can_transfer(st.view(), from_id, to_id, amount, token, false),
{
    can_transfer_with(st, from_id, to_id, amount, token, false)
}

/// Whether `amount` may be minted to identity `to_id`.
pub fn can_create(st: &MaxBalance, to_id: u64, amount: i128, token: u64) -> (r: Result<bool, ComplianceModuleError>)
    ensures
        r == spec_can_create(st.view(), to_id, amount, token, false),
{
    can_create_with(st, to_id, amount, token, false)
}

} // verus!
