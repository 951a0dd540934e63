//! Supply limit module: caps the total supply that may be minted of each
//! token. The module keeps its own count of each token's supply, which
//! the create and destroy hooks update, so that the cap is checked
//! without asking the token.
//!
//! In this generation a cap of 0 means that the token has no cap; in the
//! earlier generation ([`crate::compliance::modules::supply_limit`]) the
//! cap is applied as it stands, so an unset cap admits no mint. Both
//! share the logic below, which takes the rule as `zero_is_unlimited`.

pub mod laws;
pub mod storage;

use crate::compliance::modules::supply_limit::SupplyLimitSet;
use crate::compliance::ComplianceHook;
use crate::compliance_modules::common::{
    all_registered, checked_add_i128, checked_sub_i128, first_unregistered, fits_i128, module_name,
    require_non_negative_amount, spec_compliance_address, verify_required_hooks, ModuleConfig,
};
use crate::compliance_modules::ComplianceModuleError;
use std::collections::HashMap;
use storage::{get_internal_supply, get_supply_limit, set_internal_supply, set_supply_limit};
use vstd::prelude::*;

verus! {

broadcast use vstd::std_specs::hash::group_hash_axioms;

/// The state of a supply limit module.
pub struct SupplyLimit {
    /// The binding to the compliance contract.
    pub config: ModuleConfig,
    /// The supply cap of each token.
    pub limits: HashMap<u64, i128>,
    /// The supply of each token, as counted by the hooks.
    pub supplies: HashMap<u64, i128>,
}

/// The abstract state of the module.
pub struct SupplyLimitView {
    /// The binding to the compliance contract.
    pub config: ModuleConfig,
    /// The supply cap of each token.
    pub limits: Map<u64, i128>,
    /// The supply of each token, as counted by the hooks.
    pub supplies: Map<u64, i128>,
}

impl SupplyLimitView {
    /// The cap of `token` (0 when unset).
    pub open spec fn limit_of(self, token: u64) -> i128 {
        if self.limits.contains_key(token) {
            self.limits[token]
        } else {
            0
        }
    }

    /// The counted supply of `token` (0 when unset).
    pub open spec fn supply_of(self, token: u64) -> i128 {
        if self.supplies.contains_key(token) {
            self.supplies[token]
        } else {
            0
        }
    }

    /// This state with the counted supply of `token` written.
    pub open spec fn with_supply(self, token: u64, supply: i128) -> Self {
        SupplyLimitView { supplies: self.supplies.insert(token, supply), ..self }
    }
}

impl SupplyLimit {
    /// The abstract state.
    pub open spec fn view(&self) -> SupplyLimitView {
        SupplyLimitView { config: self.config, limits: self.limits@, supplies: self.supplies@ }
    }
}

// ################## SPECIFICATION ##################

/// The state after `amount` of `token` was minted.
pub open spec fn spec_on_created(s: SupplyLimitView, amount: i128, token: u64) -> Result<
    SupplyLimitView,
    ComplianceModuleError,
> {
    if amount < 0 {
        Err(ComplianceModuleError::InvalidAmount)
    } else if !fits_i128(s.supply_of(token) + amount) {
        Err(ComplianceModuleError::MathOverflow)
    } else {
        Ok(s.with_supply(token, (s.supply_of(token) + amount) as i128))
    }
}

/// The state after `amount` of `token` was burned.
pub open spec fn spec_on_destroyed(s: SupplyLimitView, amount: i128, token: u64) -> Result<
    SupplyLimitView,
    ComplianceModuleError,
> {
    if amount < 0 {
        Err(ComplianceModuleError::InvalidAmount)
    } else if !fits_i128(s.supply_of(token) - amount) {
        Err(ComplianceModuleError::MathUnderflow)
    } else {
        Ok(s.with_supply(token, (s.supply_of(token) - amount) as i128))
    }
}

/// Whether `amount` of `token` may be minted.
pub open spec fn spec_can_create(s: SupplyLimitView, amount: i128, token: u64, zero_is_unlimited: bool) -> Result<
    bool,
    ComplianceModuleError,
> {
    if !s.config.hooks_verified {
        Err(ComplianceModuleError::HooksNotVerified)
    } else if amount < 0 {
        Ok(false)
    } else if zero_is_unlimited && s.limit_of(token) == 0 {
        Ok(true)
    } else if !fits_i128(s.supply_of(token) + amount) {
        Err(ComplianceModuleError::MathOverflow)
    } else {
        Ok(s.supply_of(token) + amount <= s.limit_of(token))
    }
}

/// The hooks this module must be registered on.
pub open spec fn required_hooks_seq() -> Seq<ComplianceHook> {
    seq![ComplianceHook::CanCreate, ComplianceHook::Created, ComplianceHook::Destroyed]
}

// ################## LOGIC ##################

/// Sets the supply cap of `token`, refusing a negative cap.
pub fn configure_supply_limit(st: &mut SupplyLimit, token: u64, limit: i128) -> (r: Result<
    SupplyLimitSet,
    ComplianceModuleError,
>)
    ensures
        limit < 0 ==> r == Err::<SupplyLimitSet, _>(ComplianceModuleError::InvalidAmount)
            && final(st).view() == old(st).view(),
        limit >= 0 ==> r == Ok::<_, ComplianceModuleError>(SupplyLimitSet { token, limit })
            && final(st).view() == (SupplyLimitView {
            limits: old(st).view().limits.insert(token, limit),
            ..old(st).view()
        }),
{
    require_non_negative_amount(limit)?;
    set_supply_limit(st, token, limit);
    Ok(SupplyLimitSet { token, limit })
}

/// Seeds the counted supply of `token`, refusing a negative supply.
pub fn pre_set_supply(st: &mut SupplyLimit, token: u64, supply: i128) -> (r: Result<(), ComplianceModuleError>)
    ensures
        supply < 0 ==> r == Err::<(), _>(ComplianceModuleError::InvalidAmount)
            && final(st).view() == old(st).view(),
        supply >= 0 ==> r is Ok && final(st).view() == old(st).view().with_supply(token, supply),
{
    require_non_negative_amount(supply)?;
    set_internal_supply(st, token, supply);
    Ok(())
}

/// Records that `amount` of `token` was minted.
pub fn on_created(st: &mut SupplyLimit, amount: i128, token: u64) -> (r: Result<(), ComplianceModuleError>)
    ensures
        match spec_on_created(old(st).view(), amount, token) {
            Ok(s) => r is Ok && final(st).view() == s,
            Err(e) => r == Err::<(), _>(e) && final(st).view() == old(st).view(),
        },
{
    require_non_negative_amount(amount)?;
    let current = get_internal_supply(st, token);
    let next = checked_add_i128(current, amount)?;
    set_internal_supply(st, token, next);
    Ok(())
}

/// Records that `amount` of `token` was burned.
pub fn on_destroyed(st: &mut SupplyLimit, amount: i128, token: u64) -> (r: Result<(), ComplianceModuleError>)
    ensures
        match spec_on_destroyed(old(st).view(), amount, token) {
            Ok(s) => r is Ok && final(st).view() == s,
            Err(e) => r == Err::<(), _>(e) && final(st).view() == old(st).view(),
        },
{
    require_non_negative_amount(amount)?;
    let current = get_internal_supply(st, token);
    let next = checked_sub_i128(current, amount)?;
    set_internal_supply(st, token, next);
    Ok(())
}

/// Whether `amount` of `token` may be minted under the cap.
pub fn can_create_with(st: &SupplyLimit, amount: i128, token: u64, zero_is_unlimited: bool) -> (r: Result<
    bool,
    ComplianceModuleError,
>)
    ensures
        r == spec_can_create(st.view(), amount, token, zero_is_unlimited),
{
    if !st.config.hooks_verified {
        return Err(ComplianceModuleError::HooksNotVerified);
    }
    if amount < 0 {
        return Ok(false);
    }
    let limit = get_supply_limit(st, token);
    if zero_is_unlimited && limit == 0 {
        return Ok(true);
    }
    let supply = get_internal_supply(st, token);
    let total = checked_add_i128(supply, amount)?;
    Ok(total <= limit)
}

/// The hooks this module must be registered on.
pub fn required_hooks() -> (r: Vec<ComplianceHook>)
    ensures
        r@ == required_hooks_seq(),
{
    vec![ComplianceHook::CanCreate, ComplianceHook::Created, ComplianceHook::Destroyed]
}

/// Verifies the hook wiring; `registered[i]` answers for the `i`-th hook
/// of [`required_hooks`].
pub fn verify_hook_wiring(st: &mut SupplyLimit, registered: &Vec<bool>) -> (r: Result<(), ComplianceModuleError>)
    requires
        registered.len() == 3,
    ensures
        final(st).view().limits == old(st).view().limits,
        final(st).view().supplies == old(st).view().supplies,
        old(st).config.compliance is None ==> r is Ok && final(st).config == old(st).config,
        old(st).config.compliance is Some && all_registered(registered@) ==> r is Ok
            && final(st).config == (ModuleConfig { hooks_verified: true, ..old(st).config }),
        old(st).config.compliance is Some && !all_registered(registered@) ==> final(st).config
            == old(st).config && exists|i: int|
            first_unregistered(registered@, i) && r == Err::<(), _>(
                ComplianceModuleError::MissingRequiredHook(required_hooks_seq()[i]),
            ),
{
    let required = required_hooks();
    verify_required_hooks(&mut st.config, &required, registered)
}

impl SupplyLimit {
    /// A fresh module at `module_address`, with no caps and no counted
    /// supply.
    pub fn new(module_address: u64) -> (m: Self)
        ensures
            m.view().limits == Map::<u64, i128>::empty(),
            m.view().supplies == Map::<u64, i128>::empty(),
            m.config.module_address == module_address,
            m.config.compliance is None,
            !m.config.hooks_verified,
            m.config.irs_view() == Map::<u64, u64>::empty(),
    {
        SupplyLimit {
            config: ModuleConfig::new(module_address),
            limits: HashMap::new(),
            supplies: HashMap::new(),
        }
    }

    /// Sets the supply cap of `token` (0: no cap).
    pub fn set_supply_limit(&mut self, token: u64, limit: i128) -> (r: Result<SupplyLimitSet, ComplianceModuleError>)
        ensures
            limit < 0 ==> r == Err::<SupplyLimitSet, _>(ComplianceModuleError::InvalidAmount)
                && final(self).view() == old(self).view(),
            limit >= 0 ==> r == Ok::<_, ComplianceModuleError>(SupplyLimitSet { token, limit })
                && final(self).view() == (SupplyLimitView {
                limits: old(self).view().limits.insert(token, limit),
                ..old(self).view()
            }),
    {
        configure_supply_limit(self, token, limit)
    }

    /// Seeds the counted supply of `token`.
    pub fn pre_set_internal_supply(&mut self, token: u64, supply: i128) -> (r: Result<(), ComplianceModuleError>)
        ensures
            supply < 0 ==> r == Err::<(), _>(ComplianceModuleError::InvalidAmount)
                && final(self).view() == old(self).view(),
            supply >= 0 ==> r is Ok && final(self).view() == old(self).view().with_supply(token, supply),
    {
        pre_set_supply(self, token, supply)
    }

    /// The supply cap of `token` (0 when unset).
    pub fn get_supply_limit(&self, token: u64) -> (l: i128)
        ensures
            l == self.view().limit_of(token),
    {
        get_supply_limit(self, token)
    }

    /// The counted supply of `token`.
    pub fn get_internal_supply(&self, token: u64) -> (s: i128)
        ensures
            s == self.view().supply_of(token),
    {
        get_internal_supply(self, token)
    }

    /// The hooks this module must be registered on.
    pub fn required_hooks() -> (r: Vec<ComplianceHook>)
        ensures
            r@ == required_hooks_seq(),
    {
        required_hooks()
    }

    /// Verifies the hook wiring; `registered[i]` answers for the `i`-th
    /// hook of [`Self::required_hooks`].
    pub fn verify_hook_wiring(&mut self, registered: &Vec<bool>) -> (r: Result<(), ComplianceModuleError>)
        requires
            registered.len() == 3,
        ensures
            final(self).view().limits == old(self).view().limits,
            final(self).view().supplies == old(self).view().supplies,
            old(self).config.compliance is None ==> r is Ok && final(self).config == old(self).config,
            old(self).config.compliance is Some && all_registered(registered@) ==> r is Ok
                && final(self).config == (ModuleConfig { hooks_verified: true, ..old(self).config }),
            old(self).config.compliance is Some && !all_registered(registered@) ==> final(self).config
                == old(self).config && exists|i: int|
                first_unregistered(registered@, i) && r == Err::<(), _>(
                    ComplianceModuleError::MissingRequiredHook(required_hooks_seq()[i]),
                ),
    {
        verify_hook_wiring(self, registered)
    }

    /// Records a mint of `amount` of `token`.
    pub fn on_created(&mut self, amount: i128, token: u64) -> (r: Result<(), ComplianceModuleError>)
        ensures
            match spec_on_created(old(self).view(), amount, token) {
                Ok(s) => r is Ok && final(self).view() == s,
                Err(e) => r == Err::<(), _>(e) && final(self).view() == old(self).view(),
            },
    {
        on_created(self, amount, token)
    }

    /// Records a burn of `amount` of `token`.
    pub fn on_destroyed(&mut self, amount: i128, token: u64) -> (r: Result<(), ComplianceModuleError>)
        ensures
            match spec_on_destroyed(old(self).view(), amount, token) {
                Ok(s) => r is Ok && final(self).view() == s,
                Err(e) => r == Err::<(), _>(e) && final(self).view() == old(self).view(),
            },
    {
        on_destroyed(self, amount, token)
    }

    /// Transfers do not change the supply, so every one is admitted.
    pub fn can_transfer(&self, from: u64, to: u64, amount: i128, token: u64) -> (b: bool)
        ensures
            b,
    {
        true
    }

    /// Whether `amount` of `token` may be minted (a cap of 0: no cap).
    pub fn can_create(&self, amount: i128, token: u64) -> (r: Result<bool, ComplianceModuleError>)
        ensures
            r == spec_can_create(self.view(), amount, token, true),
    {
        can_create_with(self, amount, token, true)
    }

    /// The module's name.
    pub fn name() -> (s: String)
        ensures
            s@ == "SupplyLimitModule"@,
    {
        module_name("SupplyLimitModule")
    }

    /// The compliance contract's address, or the module's own while unset.
    pub fn get_compliance_address(&self) -> (a: u64)
        ensures
            a == spec_compliance_address(&self.config),
    {
        crate::compliance_modules::common::get_compliance_address(&self.config)
    }

    /// Binds the module to its compliance contract (one time only).
    pub fn set_compliance_address(&mut self, compliance: u64) -> (r: Result<(), ComplianceModuleError>)
        ensures
            old(self).config.compliance is Some ==> r == Err::<(), _>(
                ComplianceModuleError::ComplianceAddressAlreadySet,
            ) && *final(self) == *old(self),
            old(self).config.compliance is None ==> r is Ok && final(self).config == (ModuleConfig {
                compliance: Some(compliance),
                ..old(self).config
            }) && final(self).view().limits == old(self).view().limits
                && final(self).view().supplies == old(self).view().supplies,
    {
        crate::compliance_modules::common::set_compliance_address(&mut self.config, compliance)
    }
}

} // verus!
