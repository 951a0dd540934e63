//! Country allowlist module: only recipients whose identity has at least
//! one country on the allowlist of the token may receive it, by transfer
//! or by mint.
//!
//! The recipient's country entries are read from the token's identity
//! registry by the caller and handed to [`CountryAllow::can_transfer`].

use crate::compliance::modules::country_allow::storage::{
    is_country_allowed, remove_country_allowed, set_country_allowed,
};
use crate::compliance_modules::common::{
    any_country_listed, country_keys, get_irs_client, module_name, set_irs_address,
    spec_any_country_listed, spec_compliance_address, ModuleConfig,
};
use crate::compliance_modules::ComplianceModuleError;
use crate::identity_registry_storage::CountryData;
use crate::keyed::{lemma_listed_push, listed, PairSet};
use vstd::prelude::*;

pub use crate::compliance::modules::country_allow::{CountryAllowed, CountryUnallowed};

verus! {

/// The state of a country allowlist module.
pub struct CountryAllow {
    /// The binding to the compliance contract and identity registries.
    pub config: ModuleConfig,
    /// The allowed `(token, country)` pairs.
    pub allowed: PairSet,
}

/// Whether a recipient with the country entries `entries` may receive
/// `token`, or why the question cannot be answered.
pub open spec fn spec_can_transfer(
    config: ModuleConfig,
    allowed: Set<(u64, u64)>,
    to_entries: Seq<CountryData>,
    token: u64,
) -> Result<bool, ComplianceModuleError> {
    if !config.irs_view().contains_key(token) {
        Err(ComplianceModuleError::IdentityRegistryNotSet)
    } else {
        Ok(spec_any_country_listed(allowed, token, to_entries))
    }
}

/// The events for allowing each listed country.
pub open spec fn allowed_events(token: u64, countries: Seq<u32>) -> Seq<CountryAllowed> {
    Seq::new(countries.len(), |i: int| CountryAllowed { token, country: countries[i] })
}

/// The events for removing each listed country.
pub open spec fn unallowed_events(token: u64, countries: Seq<u32>) -> Seq<CountryUnallowed> {
    Seq::new(countries.len(), |i: int| CountryUnallowed { token, country: countries[i] })
}

impl CountryAllow {
    /// A fresh module at `module_address`, with empty allowlists.
    pub fn new(module_address: u64) -> (m: Self)
        ensures
            m.allowed@ == Set::<(u64, u64)>::empty(),
            m.config.module_address == module_address,
            m.config.compliance is None,
            !m.config.hooks_verified,
            m.config.irs_view() == Map::<u64, u64>::empty(),
    {
        CountryAllow { config: ModuleConfig::new(module_address), allowed: PairSet::new() }
    }

    /// Records `irs` as the identity registry of `token`.
    pub fn set_identity_registry_storage(&mut self, token: u64, irs: u64)
        ensures
            final(self).config.irs_view() == old(self).config.irs_view().insert(token, irs),
            final(self).config.module_address == old(self).config.module_address,
            final(self).config.compliance == old(self).config.compliance,
            final(self).config.hooks_verified == old(self).config.hooks_verified,
            final(self).allowed@ == old(self).allowed@,
    {
        set_irs_address(&mut self.config, token, irs);
    }

    /// Adds `country` to the allowlist of `token`.
    pub fn add_allowed_country(&mut self, token: u64, country: u32) -> (ev: CountryAllowed)
        ensures
            final(self).allowed@ == old(self).allowed@.insert((token, country as u64)),
            final(self).config == old(self).config,
            ev == (CountryAllowed { token, country }),
    {
        set_country_allowed(self, token, country);
        CountryAllowed { token, country }
    }

    /// Removes `country` from the allowlist of `token`.
    pub fn remove_allowed_country(&mut self, token: u64, country: u32) -> (ev: CountryUnallowed)
        ensures
            final(self).allowed@ == old(self).allowed@.remove((token, country as u64)),
            final(self).config == old(self).config,
            ev == (CountryUnallowed { token, country }),
    {
        remove_country_allowed(self, token, country);
        CountryUnallowed { token, country }
    }

    /// Adds every listed country to the allowlist of `token`, with one
    /// event per listed country.
    pub fn batch_allow_countries(&mut self, token: u64, countries: &Vec<u32>) -> (evs: Vec<CountryAllowed>)
        ensures
            final(self).allowed@ == old(self).allowed@.union(listed(token, country_keys(countries@))),
            final(self).config == old(self).config,
            evs@ == allowed_events(token, countries@),
    {
        let ghost keys = country_keys(countries@);
        let mut events: Vec<CountryAllowed> = Vec::new();
        let n = countries.len();
        let mut i: usize = 0;
        while i < n
            invariant
                n == countries.len(),
                keys == country_keys(countries@),
                0 <= i <= n,
                self.allowed@ == old(self).allowed@.union(listed(token, keys.take(i as int))),
                self.config == old(self).config,
                events@ == allowed_events(token, countries@.take(i as int)),
            decreases n - i,
        {
            let country = countries[i];
            set_country_allowed(self, token, country);
            events.push(CountryAllowed { token, country });
            proof {
                lemma_listed_push(token, keys, i as int);
                assert(self.allowed@ =~= old(self).allowed@.union(listed(token, keys.take(i + 1))));
                assert(events@ =~= allowed_events(token, countries@.take(i + 1)));
            }
            i = i + 1;
        }
        assert(keys.take(n as int) =~= keys);
        assert(countries@.take(n as int) =~= countries@);
        events
    }

    /// Removes every listed country from the allowlist of `token`, with
    /// one event per listed country.
    pub fn batch_disallow_countries(&mut self, token: u64, countries: &Vec<u32>) -> (evs: Vec<CountryUnallowed>)
        ensures
            final(self).allowed@ == old(self).allowed@.difference(listed(token, country_keys(countries@))),
            final(self).config == old(self).config,
            evs@ == unallowed_events(token, countries@),
    {
        let ghost keys = country_keys(countries@);
        let mut events: Vec<CountryUnallowed> = Vec::new();
        let n = countries.len();
        let mut i: usize = 0;
        while i < n
            invariant
                n == countries.len(),
                keys == country_keys(countries@),
                0 <= i <= n,
                self.allowed@ == old(self).allowed@.difference(listed(token, keys.take(i as int))),
                self.config == old(self).config,
                events@ == unallowed_events(token, countries@.take(i as int)),
            decreases n - i,
        {
            let country = countries[i];
            remove_country_allowed(self, token, country);
            events.push(CountryUnallowed { token, country });
            proof {
                lemma_listed_push(token, keys, i as int);
                assert(self.allowed@ =~= old(self).allowed@.difference(listed(token, keys.take(i + 1))));
                assert(events@ =~= unallowed_events(token, countries@.take(i + 1)));
            }
            i = i + 1;
        }
        assert(keys.take(n as int) =~= keys);
        assert(countries@.take(n as int) =~= countries@);
        events
    }

    /// Whether `country` is on the allowlist of `token`.
    pub fn is_country_allowed(&self, token: u64, country: u32) -> (b: bool)
        ensures
            b == self.allowed@.contains((token, country as u64)),
    {
        is_country_allowed(self, token, country)
    }

    /// Whether a recipient with the country entries `to_entries` (its
    /// entries in the token's identity registry) may receive `token`: at
    /// least one of its countries must be allowed.
    pub fn can_transfer(&self, to_entries: &Vec<CountryData>, token: u64) -> (r: Result<bool, ComplianceModuleError>)
        ensures
            r == spec_can_transfer(self.config, self.allowed@, to_entries@, token),
    {
        get_irs_client(&self.config, token)?;
        Ok(any_country_listed(&self.allowed, token, to_entries))
    }

    /// Mints are checked as transfers to the recipient.
    pub fn can_create(&self, to_entries: &Vec<CountryData>, token: u64) -> (r: Result<bool, ComplianceModuleError>)
        ensures
            r == spec_can_transfer(self.config, self.allowed@, to_entries@, token),
    {
        self.can_transfer(to_entries, token)
    }

    /// The module's name.
    pub fn name() -> (s: String)
        ensures
            s@ == "CountryAllowModule"@,
    {
        module_name("CountryAllowModule")
    }

    /// The compliance contract's address, or the module's own while unset.
    pub fn get_compliance_address(&self) -> (a: u64)
        ensures
            a == spec_compliance_address(&self.config),
    {
        crate::compliance_modules::common::get_compliance_address(&self.config)
    }

    /// Binds the module to its compliance contract (one time only).
    pub fn set_compliance_address(&mut self, compliance: u64) -> (r: Result<(), ComplianceModuleError>)
        ensures
            old(self).config.compliance is Some ==> r == Err::<(), _>(
                ComplianceModuleError::ComplianceAddressAlreadySet,
            ) && final(self).config == old(self).config,
            old(self).config.compliance is None ==> r is Ok && final(self).config == (ModuleConfig {
                compliance: Some(compliance),
                ..old(self).config
            }),
            final(self).allowed@ == old(self).allowed@,
    {
        crate::compliance_modules::common::set_compliance_address(&mut self.config, compliance)
    }
}

} // verus!
