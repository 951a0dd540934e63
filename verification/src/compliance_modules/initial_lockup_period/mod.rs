//! Initial lockup period module: tokens received through a mint stay
//! locked for the token's lockup period; tokens received through
//! transfers are free. The module tracks each wallet's balance and locks
//! itself, through the create, transfer and destroy hooks.

pub mod storage;

use crate::compliance::modules::initial_lockup_period::storage as logic;
use crate::compliance::modules::initial_lockup_period::LockupPeriodSet;
use crate::compliance::ComplianceHook;
use crate::compliance_modules::common::{
    all_registered, first_unregistered, module_name, spec_compliance_address, ModuleConfig,
};
use crate::compliance_modules::ComplianceModuleError;
use crate::keyed::PairMap;
use std::collections::HashMap;
use storage::LockedTokens;
use vstd::prelude::*;

verus! {

/// The state of an initial lockup module.
pub struct InitialLockupPeriod {
    /// The binding to the compliance contract and identity registries.
    pub config: ModuleConfig,
    /// The lockup period (seconds) of each token.
    pub lockup_periods: HashMap<u64, u64>,
    /// The locks of each `(token, wallet)`.
    pub locks: PairMap<Vec<LockedTokens>>,
    /// The total locked amount of each `(token, wallet)`.
    pub total_locked: PairMap<i128>,
    /// The balance of each `(token, wallet)` as the module tracks it.
    pub internal_balances: PairMap<i128>,
}

/// The abstract state of an initial lockup module: its configuration
/// and the maps it keeps. A key that was never written is absent.
pub struct LockupView {
    /// The binding to the compliance contract and identity registries.
    pub config: ModuleConfig,
    /// The lockup period of each token.
    pub periods: Map<u64, u64>,
    /// The locks of each `(token, wallet)`.
    pub locks: Map<(u64, u64), Seq<LockedTokens>>,
    /// The total locked amount of each `(token, wallet)`.
    pub totals: Map<(u64, u64), i128>,
    /// The tracked balance of each `(token, wallet)`.
    pub balances: Map<(u64, u64), i128>,
}

impl LockupView {
    /// The lockup period of `token` (0 when unset).
    pub open spec fn period(self, token: u64) -> u64 {
        if self.periods.contains_key(token) {
            self.periods[token]
        } else {
            0
        }
    }

    /// The locks of `(token, wallet)` (none when unset).
    pub open spec fn locks_of(self, token: u64, wallet: u64) -> Seq<LockedTokens> {
        if self.locks.contains_key((token, wallet)) {
            self.locks[(token, wallet)]
        } else {
            Seq::empty()
        }
    }

    /// The total locked amount of `(token, wallet)` (0 when unset).
    pub open spec fn total_of(self, token: u64, wallet: u64) -> i128 {
        if self.totals.contains_key((token, wallet)) {
            self.totals[(token, wallet)]
        } else {
            0
        }
    }

    /// The tracked balance of `(token, wallet)` (0 when unset).
    pub open spec fn balance_of(self, token: u64, wallet: u64) -> i128 {
        if self.balances.contains_key((token, wallet)) {
            self.balances[(token, wallet)]
        } else {
            0
        }
    }

    /// This state with the locks and total of `(token, wallet)` written.
    pub open spec fn with_locks(self, token: u64, wallet: u64, locks: Seq<LockedTokens>, total: i128) -> Self {
        LockupView {
            locks: self.locks.insert((token, wallet), locks),
            totals: self.totals.insert((token, wallet), total),
            ..self
        }
    }

    /// This state with the balance of `(token, wallet)` written.
    pub open spec fn with_balance(self, token: u64, wallet: u64, balance: i128) -> Self {
        LockupView { balances: self.balances.insert((token, wallet), balance), ..self }
    }
}

impl InitialLockupPeriod {
    /// The abstract state.
    pub open spec fn view(&self) -> LockupView {
        LockupView {
            config: self.config,
            periods: self.lockup_periods@,
            locks: self.locks.view().map_values(|v: Vec<LockedTokens>| v@),
            totals: self.total_locked.view(),
            balances: self.internal_balances.view(),
        }
    }
}

impl InitialLockupPeriod {
    /// A fresh module at `module_address`, with no state.
    pub fn new(module_address: u64) -> (m: Self)
        ensures
            m.view() == (LockupView {
                config: m.config,
                periods: Map::empty(),
                locks: Map::empty(),
                totals: Map::empty(),
                balances: Map::empty(),
            }),
            m.config.module_address == module_address,
            m.config.compliance is None,
            !m.config.hooks_verified,
            m.config.irs_view() == Map::<u64, u64>::empty(),
    {
        let m = InitialLockupPeriod {
            config: ModuleConfig::new(module_address),
            lockup_periods: HashMap::new(),
            locks: PairMap::new(),
            total_locked: PairMap::new(),
            internal_balances: PairMap::new(),
        };
        assert(m.view().locks =~= Map::<(u64, u64), Seq<LockedTokens>>::empty());
        m
    }

    /// Sets the lockup period of `token` and reports the event.
    pub fn set_lockup_period(&mut self, token: u64, lockup_seconds: u64) -> (ev: LockupPeriodSet)
        ensures
            final(self).view() == (LockupView {
                periods: old(self).view().periods.insert(token, lockup_seconds),
                ..old(self).view()
            }),
            ev == (LockupPeriodSet { token, lockup_seconds }),
    {
        logic::configure_lockup_period(self, token, lockup_seconds)
    }

    /// Seeds `wallet`'s tracked balance and locks.
    pub fn pre_set_lockup_state(
        &mut self,
        token: u64,
        wallet: u64,
        balance: i128,
        locks: &Vec<LockedTokens>,
    ) -> (r: Result<(), ComplianceModuleError>)
        ensures
            match logic::spec_pre_set_lockup_state(old(self).view(), token, wallet, balance, locks@) {
                Ok(s) => r is Ok && final(self).view() == s,
                Err(e) => r == Err::<(), _>(e) && final(self).view() == old(self).view(),
            },
    {
        logic::pre_set_lockup_state(self, token, wallet, balance, locks)
    }

    /// The lockup period of `token` (0 when unset).
    pub fn get_lockup_period(&self, token: u64) -> (p: u64)
        ensures
            p == self.view().period(token),
    {
        storage::get_lockup_period(self, token)
    }

    /// The total locked amount of `wallet` for `token`.
    pub fn get_total_locked(&self, token: u64, wallet: u64) -> (t: i128)
        ensures
            t == self.view().total_of(token, wallet),
    {
        storage::get_total_locked(self, token, wallet)
    }

    /// The locks of `wallet` for `token`.
    pub fn get_locked_tokens(&self, token: u64, wallet: u64) -> (l: Vec<LockedTokens>)
        ensures
            l@ == self.view().locks_of(token, wallet),
    {
        storage::get_locks(self, token, wallet)
    }

    /// The balance the module tracks for `wallet` in `token`.
    pub fn get_internal_balance(&self, token: u64, wallet: u64) -> (b: i128)
        ensures
            b == self.view().balance_of(token, wallet),
    {
        storage::get_internal_balance(self, token, wallet)
    }

    /// The hooks this module must be registered on.
    pub fn required_hooks() -> (r: Vec<ComplianceHook>)
        ensures
            r@ == logic::required_hooks_seq(),
    {
        logic::required_hooks()
    }

    /// Verifies the hook wiring; `registered[i]` answers for the `i`-th
    /// hook of [`Self::required_hooks`].
    pub fn verify_hook_wiring(&mut self, registered: &Vec<bool>) -> (r: Result<(), ComplianceModuleError>)
        requires
            registered.len() == 4,
        ensures
            final(self).view() == (LockupView { config: final(self).view().config, ..old(self).view() }),
            old(self).config.compliance is None ==> r is Ok && final(self).config == old(self).config,
            old(self).config.compliance is Some && all_registered(registered@) ==> r is Ok
                && final(self).config.hooks_verified && final(self).config.compliance == old(self).config.compliance,
            old(self).config.compliance is Some && !all_registered(registered@) ==> final(self).config
                == old(self).config && exists|i: int|
                first_unregistered(registered@, i) && r == Err::<(), _>(
                    ComplianceModuleError::MissingRequiredHook(logic::required_hooks_seq()[i]),
                ),
    {
        logic::verify_hook_wiring(self, registered)
    }

    /// Records a transfer (the compliance contract's `Transferred` hook).
    pub fn on_transfer(&mut self, from: u64, to: u64, amount: i128, token: u64, now: u64) -> (r: Result<
        (),
        ComplianceModuleError,
    >)
        ensures
            match logic::spec_on_transfer(old(self).view(), from, to, amount, token, now) {
                Ok(s) => r is Ok && final(self).view() == s,
                Err(e) => r == Err::<(), _>(e) && final(self).view() == old(self).view(),
            },
    {
        logic::on_transfer(self, from, to, amount, token, now)
    }

    /// Records a mint (the `Created` hook).
    pub fn on_created(&mut self, to: u64, amount: i128, token: u64, now: u64) -> (r: Result<
        (),
        ComplianceModuleError,
    >)
        ensures
            match logic::spec_on_created(old(self).view(), to, amount, token, now) {
                Ok(s) => r is Ok && final(self).view() == s,
                Err(e) => r == Err::<(), _>(e) && final(self).view() == old(self).view(),
            },
    {
        logic::on_created(self, to, amount, token, now)
    }

    /// Records a burn (the `Destroyed` hook).
    pub fn on_destroyed(&mut self, from: u64, amount: i128, token: u64, now: u64) -> (r: Result<
        (),
        ComplianceModuleError,
    >)
        ensures
            match logic::spec_on_destroyed(old(self).view(), from, amount, token, now) {
                Ok(s) => r is Ok && final(self).view() == s,
                Err(e) => r == Err::<(), _>(e) && final(self).view() == old(self).view(),
            },
    {
        logic::on_destroyed(self, from, amount, token, now)
    }

    /// Whether `from` may transfer `amount` to `_to` at time `now`.
    pub fn can_transfer(&self, from: u64, _to: u64, amount: i128, token: u64, now: u64) -> (r: Result<
        bool,
        ComplianceModuleError,
    >)
        ensures
            r == logic::spec_can_transfer(self.view(), from, amount, token, now),
    {
        logic::can_transfer(self, from, amount, token, now)
    }

    /// Mints are never refused by this module.
    pub fn can_create(&self, _to: u64, _amount: i128, _token: u64) -> (r: bool)
        ensures
            r,
    {
        true
    }

    /// The module's name.
    pub fn name() -> (s: String)
        ensures
            s@ == "InitialLockupPeriodModule"@,
    {
        module_name("InitialLockupPeriodModule")
    }

    /// The compliance contract's address, or the module's own while unset.
    pub fn get_compliance_address(&self) -> (a: u64)
        ensures
            a == spec_compliance_address(&self.config),
    {
        crate::compliance_modules::common::get_compliance_address(&self.config)
    }

    /// Binds the module to its compliance contract (one time only).
    pub fn set_compliance_address(&mut self, compliance: u64) -> (r: Result<(), ComplianceModuleError>)
        ensures
            old(self).config.compliance is Some ==> r == Err::<(), _>(
                ComplianceModuleError::ComplianceAddressAlreadySet,
            ) && *final(self) == *old(self),
            old(self).config.compliance is None ==> r is Ok && final(self).view() == (LockupView {
                config: ModuleConfig { compliance: Some(compliance), ..old(self).config },
                ..old(self).view()
            }),
    {
        crate::compliance_modules::common::set_compliance_address(&mut self.config, compliance)
    }
}

} // verus!
