//! Country restriction module: recipients whose identity has any country
//! on the restriction list of the token may not receive it, by transfer
//! or by mint.
//!
//! The recipient's country entries are read from the token's identity
//! registry by the caller and handed to [`CountryRestrict::can_transfer`].

pub mod laws;
pub mod storage;

use crate::compliance_modules::common::{
    any_country_listed, country_keys, get_irs_client, module_name, set_irs_address,
    spec_any_country_listed, spec_compliance_address, ModuleConfig,
};
use crate::compliance_modules::ComplianceModuleError;
use crate::identity_registry_storage::CountryData;
use crate::keyed::{lemma_listed_push, listed, PairSet};
use vstd::prelude::*;

use storage::{is_country_restricted, remove_country_restricted, set_country_restricted};

verus! {

/// Event: `country` was added to the restriction list of `token`.
#[derive(Clone, Copy, Debug, PartialEq, Eq, Structural)]
pub struct CountryRestricted {
    /// The token.
    pub token: u64,
    /// The ISO 3166-1 numeric country code.
    pub country: u32,
}

/// Event: `country` was removed from the restriction list of `token`.
#[derive(Clone, Copy, Debug, PartialEq, Eq, Structural)]
pub struct CountryUnrestricted {
    /// The token.
    pub token: u64,
    /// The ISO 3166-1 numeric country code.
    pub country: u32,
}

/// The state of a country restriction module.
pub struct CountryRestrict {
    /// The binding to the compliance contract and identity registries.
    pub config: ModuleConfig,
    /// The restricted `(token, country)` pairs.
    pub restricted: PairSet,
}

/// Whether a recipient with the country entries `entries` may receive
/// `token`, or why the question cannot be answered.
pub open spec fn spec_can_transfer(
    config: ModuleConfig,
    restricted: Set<(u64, u64)>,
    to_entries: Seq<CountryData>,
    token: u64,
) -> Result<bool, ComplianceModuleError> {
    if !config.irs_view().contains_key(token) {
        Err(ComplianceModuleError::IdentityRegistryNotSet)
    } else {
        Ok(!spec_any_country_listed(restricted, token, to_entries))
    }
}

/// The events for allowing each listed country.
pub open spec fn restricted_events(token: u64, countries: Seq<u32>) -> Seq<CountryRestricted> {
    Seq::new(countries.len(), |i: int| CountryRestricted { token, country: countries[i] })
}

/// The events for removing each listed country.
pub open spec fn unrestricted_events(token: u64, countries: Seq<u32>) -> Seq<CountryUnrestricted> {
    Seq::new(countries.len(), |i: int| CountryUnrestricted { token, country: countries[i] })
}

impl CountryRestrict {
    /// A fresh module at `module_address`, with empty restriction lists.
    pub fn new(module_address: u64) -> (m: Self)
        ensures
            m.restricted@ == Set::<(u64, u64)>::empty(),
            m.config.module_address == module_address,
            m.config.compliance is None,
            !m.config.hooks_verified,
            m.config.irs_view() == Map::<u64, u64>::empty(),
    {
        CountryRestrict { config: ModuleConfig::new(module_address), restricted: PairSet::new() }
    }

    /// Records `irs` as the identity registry of `token`.
    pub fn set_identity_registry_storage(&mut self, token: u64, irs: u64)
        ensures
            final(self).config.irs_view() == old(self).config.irs_view().insert(token, irs),
            final(self).config.module_address == old(self).config.module_address,
            final(self).config.compliance == old(self).config.compliance,
            final(self).config.hooks_verified == old(self).config.hooks_verified,
            final(self).restricted@ == old(self).restricted@,
    {
        set_irs_address(&mut self.config, token, irs);
    }

    /// Adds `country` to the restriction list of `token`.
    pub fn add_country_restriction(&mut self, token: u64, country: u32) -> (ev: CountryRestricted)
        ensures
            final(self).restricted@ == old(self).restricted@.insert((token, country as u64)),
            final(self).config == old(self).config,
            ev == (CountryRestricted { token, country }),
    {
        set_country_restricted(self, token, country);
        CountryRestricted { token, country }
    }

    /// Removes `country` from the restriction list of `token`.
    pub fn remove_country_restriction(&mut self, token: u64, country: u32) -> (ev: CountryUnrestricted)
        ensures
            final(self).restricted@ == old(self).restricted@.remove((token, country as u64)),
            final(self).config == old(self).config,
            ev == (CountryUnrestricted { token, country }),
    {
        remove_country_restricted(self, token, country);
        CountryUnrestricted { token, country }
    }

    /// Adds every listed country to the restriction list of `token`, with one
    /// event per listed country.
    pub fn batch_restrict_countries(&mut self, token: u64, countries: &Vec<u32>) -> (evs: Vec<CountryRestricted>)
        ensures
            final(self).restricted@ == old(self).restricted@.union(listed(token, country_keys(countries@))),
            final(self).config == old(self).config,
            evs@ == restricted_events(token, countries@),
    {
        let ghost keys = country_keys(countries@);
        let mut events: Vec<CountryRestricted> = Vec::new();
        let n = countries.len();
        let mut i: usize = 0;
        while i < n
            invariant
                n == countries.len(),
                keys == country_keys(countries@),
                0 <= i <= n,
                self.restricted@ == old(self).restricted@.union(listed(token, keys.take(i as int))),
                self.config == old(self).config,
                events@ == restricted_events(token, countries@.take(i as int)),
            decreases n - i,
        {
            let country = countries[i];
            set_country_restricted(self, token, country);
            events.push(CountryRestricted { token, country });
            proof {
                lemma_listed_push(token, keys, i as int);
                assert(self.restricted@ =~= old(self).restricted@.union(listed(token, keys.take(i + 1))));
                assert(events@ =~= restricted_events(token, countries@.take(i + 1)));
            }
            i = i + 1;
        }
        assert(keys.take(n as int) =~= keys);
        assert(countries@.take(n as int) =~= countries@);
        events
    }

    /// Removes every listed country from the restriction list of `token`, with
    /// one event per listed country.
    pub fn batch_unrestrict_countries(&mut self, token: u64, countries: &Vec<u32>) -> (evs: Vec<CountryUnrestricted>)
        ensures
            final(self).restricted@ == old(self).restricted@.difference(listed(token, country_keys(countries@))),
            final(self).config == old(self).config,
            evs@ == unrestricted_events(token, countries@),
    {
        let ghost keys = country_keys(countries@);
        let mut events: Vec<CountryUnrestricted> = Vec::new();
        let n = countries.len();
        let mut i: usize = 0;
        while i < n
            invariant
                n == countries.len(),
                keys == country_keys(countries@),
                0 <= i <= n,
                self.restricted@ == old(self).restricted@.difference(listed(token, keys.take(i as int))),
                self.config == old(self).config,
                events@ == unrestricted_events(token, countries@.take(i as int)),
            decreases n - i,
        {
            let country = countries[i];
            remove_country_restricted(self, token, country);
            events.push(CountryUnrestricted { token, country });
            proof {
                lemma_listed_push(token, keys, i as int);
                assert(self.restricted@ =~= old(self).restricted@.difference(listed(token, keys.take(i + 1))));
                assert(events@ =~= unrestricted_events(token, countries@.take(i + 1)));
            }
            i = i + 1;
        }
        assert(keys.take(n as int) =~= keys);
        assert(countries@.take(n as int) =~= countries@);
        events
    }

    /// Whether `country` is on the restriction list of `token`.
    pub fn is_country_restricted(&self, token: u64, country: u32) -> (b: bool)
        ensures
            b == self.restricted@.contains((token, country as u64)),
    {
        is_country_restricted(self, token, country)
    }

    /// Whether a recipient with the country entries `to_entries` (its
    /// entries in the token's identity registry) may receive `token`: none
    /// of its countries may be restricted.
    pub fn can_transfer(&self, to_entries: &Vec<CountryData>, token: u64) -> (r: Result<bool, ComplianceModuleError>)
        ensures
            r == spec_can_transfer(self.config, self.restricted@, to_entries@, token),
    {
        get_irs_client(&self.config, token)?;
        Ok(!any_country_listed(&self.restricted, token, to_entries))
    }

    /// Mints are checked as transfers to the recipient.
    pub fn can_create(&self, to_entries: &Vec<CountryData>, token: u64) -> (r: Result<bool, ComplianceModuleError>)
        ensures
            r == spec_can_transfer(self.config, self.restricted@, to_entries@, token),
    {
        self.can_transfer(to_entries, token)
    }

    /// The module's name.
    pub fn name() -> (s: String)
        ensures
            s@ == "CountryRestrictModule"@,
    {
        module_name("CountryRestrictModule")
    }

    /// The compliance contract's address, or the module's own while unset.
    pub fn get_compliance_address(&self) -> (a: u64)
        ensures
            a == spec_compliance_address(&self.config),
    {
        crate::compliance_modules::common::get_compliance_address(&self.config)
    }

    /// Binds the module to its compliance contract (one time only).
    pub fn set_compliance_address(&mut self, compliance: u64) -> (r: Result<(), ComplianceModuleError>)
        ensures
            old(self).config.compliance is Some ==> r == Err::<(), _>(
                ComplianceModuleError::ComplianceAddressAlreadySet,
            ) && final(self).config == old(self).config,
            old(self).config.compliance is None ==> r is Ok && final(self).config == (ModuleConfig {
                compliance: Some(compliance),
                ..old(self).config
            }),
            final(self).restricted@ == old(self).restricted@,
    {
        crate::compliance_modules::common::set_compliance_address(&mut self.config, compliance)
    }
}

} // verus!
