//! Shared helpers for compliance modules: the binding to the compliance
//! contract, hook-wiring verification, checked `i128` arithmetic, the
//! identity registry address of each token, and country-code extraction.

use crate::compliance::ComplianceHook;
use crate::compliance_modules::ComplianceModuleError;
use crate::identity_registry_storage::{
    CountryData, CountryRelation, IndividualCountryRelation, OrganizationCountryRelation,
};
use crate::keyed::PairSet;
use std::collections::HashMap;
use vstd::prelude::*;

verus! {

broadcast use vstd::std_specs::hash::group_hash_axioms;

/// The key under which the identity registry of a token is stored.
#[derive(Clone, Copy, Debug, PartialEq, Eq, Structural)]
pub enum IRSKey {
    /// The identity registry of a token.
    Registry(u64),
}

/// The configuration that every module keeps: its own address, the
/// compliance contract that governs it, whether its hook wiring has been
/// verified, and the identity registry of each token.
pub struct ModuleConfig {
    /// The module's own contract address.
    pub module_address: u64,
    /// The governing compliance contract, once set.
    pub compliance: Option<u64>,
    /// Whether the hook wiring has been verified (and cached).
    pub hooks_verified: bool,
    /// The identity registry of each token.
    pub irs: HashMap<u64, u64>,
}

impl ModuleConfig {
    /// The identity registry address of each token.
    pub open spec fn irs_view(&self) -> Map<u64, u64> {
        self.irs@
    }

    /// A configuration for the module at `module_address`, with no
    /// compliance contract, unverified hooks and no identity registries.
    pub fn new(module_address: u64) -> (c: Self)
        ensures
            c.module_address == module_address,
            c.compliance is None,
            !c.hooks_verified,
            c.irs_view() == Map::<u64, u64>::empty(),
    {
        ModuleConfig { module_address, compliance: None, hooks_verified: false, irs: HashMap::new() }
    }
}

/// The address `get_compliance_address` reports: the compliance contract
/// once set, else the module itself.
pub open spec fn spec_compliance_address(cfg: &ModuleConfig) -> u64 {
    match cfg.compliance {
        Some(c) => c,
        None => cfg.module_address,
    }
}

/// The configuration after binding it to `compliance`, or the refusal.
pub open spec fn spec_set_compliance_address(cfg: ModuleConfig, compliance: u64) -> Result<
    ModuleConfig,
    ComplianceModuleError,
> {
    if cfg.compliance is Some {
        Err(ComplianceModuleError::ComplianceAddressAlreadySet)
    } else {
        Ok(ModuleConfig { compliance: Some(compliance), ..cfg })
    }
}

/// The compliance address is set once: after a binding succeeds, every
/// later one is refused, and the reported address stays the first.
pub proof fn law_compliance_address_is_set_once(cfg: ModuleConfig, first: u64, second: u64)
    requires
        spec_set_compliance_address(cfg, first) is Ok,
    ensures
        ({
            let bound = spec_set_compliance_address(cfg, first)->Ok_0;
            &&& spec_compliance_address(&bound) == first
            &&& spec_set_compliance_address(bound, second) == Err::<ModuleConfig, _>(
                ComplianceModuleError::ComplianceAddressAlreadySet,
            )
        }),
{
}

/// Binds the module to its compliance contract. This is a one-time
/// operation: once an address is set it cannot change.
pub fn set_compliance_address(cfg: &mut ModuleConfig, compliance: u64) -> (r: Result<(), ComplianceModuleError>)
    ensures
        match spec_set_compliance_address(*old(cfg), compliance) {
            Ok(c) => r is Ok && *final(cfg) == c,
            Err(e) => r == Err::<(), _>(e) && *final(cfg) == *old(cfg),
        },
        old(cfg).compliance is Some ==> r == Err::<(), _>(ComplianceModuleError::ComplianceAddressAlreadySet)
            && *final(cfg) == *old(cfg),
        old(cfg).compliance is None ==> r is Ok && *final(cfg) == (ModuleConfig {
            compliance: Some(compliance),
            ..*old(cfg)
        }),
{
    if cfg.compliance.is_some() {
        return Err(ComplianceModuleError::ComplianceAddressAlreadySet);
    }
    cfg.compliance = Some(compliance);
    Ok(())
}

/// The compliance contract's address, or the module's own address while
/// no compliance contract is set.
pub fn get_compliance_address(cfg: &ModuleConfig) -> (a: u64)
    ensures
        a == spec_compliance_address(cfg),
{
    match cfg.compliance {
        Some(c) => c,
        None => cfg.module_address,
    }
}

/// The account whose authorization an administrative call needs, and
/// whether it must authorize: the compliance contract once set; before
/// that, the module itself, which needs no outside authorization.
pub fn require_compliance_auth(cfg: &ModuleConfig) -> (r: (u64, bool))
    ensures
        r.0 == spec_compliance_address(cfg),
        r.1 == cfg.compliance is Some,
{
    match cfg.compliance {
        Some(c) => (c, true),
        None => (cfg.module_address, false),
    }
}

/// Whether the hook wiring has been verified.
pub fn hooks_verified(cfg: &ModuleConfig) -> (b: bool)
    ensures
        b == cfg.hooks_verified,
{
    cfg.hooks_verified
}

/// Whether every required hook was reported registered.
pub open spec fn all_registered(registered: Seq<bool>) -> bool {
    forall|i: int| 0 <= i < registered.len() ==> #[trigger] registered[i]
}

/// `i` is the first index of a hook reported unregistered.
pub open spec fn first_unregistered(registered: Seq<bool>, i: int) -> bool {
    &&& 0 <= i < registered.len()
    &&& !registered[i]
    &&& forall|j: int| 0 <= j < i ==> #[trigger] registered[j]
}

/// Verifies that the module is registered on every hook in `required`,
/// and caches the success.
///
/// `registered[i]` is the compliance contract's answer to whether this
/// module is registered on `required[i]`. While no compliance contract is
/// set the check is skipped. A missing hook is reported by the first
/// required hook that is not registered.
pub fn verify_required_hooks(
    cfg: &mut ModuleConfig,
    required: &Vec<ComplianceHook>,
    registered: &Vec<bool>,
) -> (r: Result<(), ComplianceModuleError>)
    requires
        required.len() == registered.len(),
    ensures
        old(cfg).compliance is None ==> r is Ok && *final(cfg) == *old(cfg),
        old(cfg).compliance is Some && all_registered(registered@) ==> r is Ok
            && *final(cfg) == (ModuleConfig { hooks_verified: true, ..*old(cfg) }),
        old(cfg).compliance is Some && !all_registered(registered@) ==> *final(cfg) == *old(cfg)
            && exists|i: int|
            first_unregistered(registered@, i) && r == Err::<(), _>(
                ComplianceModuleError::MissingRequiredHook(required@[i]),
            ),
{
    if cfg.compliance.is_none() {
        return Ok(());
    }
    let n = required.len();
    let mut i: usize = 0;
    while i < n
        invariant
            n == required.len(),
            n == registered.len(),
            0 <= i <= n,
            cfg.compliance is Some,
            *cfg == *old(cfg),
            forall|j: int| 0 <= j < i ==> #[trigger] registered@[j],
        decreases n - i,
    {
        if !registered[i] {
            assert(first_unregistered(registered@, i as int));
            return Err(ComplianceModuleError::MissingRequiredHook(required[i]));
        }
        i = i + 1;
    }
    cfg.hooks_verified = true;
    Ok(())
}

/// Whether `x` lies in the range of `i128`.
pub open spec fn fits_i128(x: int) -> bool {
    i128::MIN <= x <= i128::MAX
}

/// Refuses a negative amount.
pub fn require_non_negative_amount(amount: i128) -> (r: Result<(), ComplianceModuleError>)
    ensures
        amount >= 0 ==> r is Ok,
        amount < 0 ==> r == Err::<(), _>(ComplianceModuleError::InvalidAmount),
{
    if amount < 0 {
        Err(ComplianceModuleError::InvalidAmount)
    } else {
        Ok(())
    }
}

/// `left + right`, or `MathOverflow` when the sum leaves `i128`.
pub fn checked_add_i128(left: i128, right: i128) -> (r: Result<i128, ComplianceModuleError>)
    ensures
        fits_i128(left + right) ==> r == Ok::<i128, ComplianceModuleError>((left + right) as i128),
        !fits_i128(left + right) ==> r == Err::<i128, _>(ComplianceModuleError::MathOverflow),
{
    match left.checked_add(right) {
        Some(v) => Ok(v),
        None => Err(ComplianceModuleError::MathOverflow),
    }
}

/// `left - right`, or `MathUnderflow` when the difference leaves `i128`.
pub fn checked_sub_i128(left: i128, right: i128) -> (r: Result<i128, ComplianceModuleError>)
    ensures
        fits_i128(left - right) ==> r == Ok::<i128, ComplianceModuleError>((left - right) as i128),
        !fits_i128(left - right) ==> r == Err::<i128, _>(ComplianceModuleError::MathUnderflow),
{
    match left.checked_sub(right) {
        Some(v) => Ok(v),
        None => Err(ComplianceModuleError::MathUnderflow),
    }
}

/// A module's name as an owned string.
pub fn module_name(name: &str) -> (s: String)
    ensures
        s@ == name@,
{
    name.to_owned()
}

/// Records `irs` as the identity registry of `token`.
pub fn set_irs_address(cfg: &mut ModuleConfig, token: u64, irs: u64)
    ensures
        final(cfg).irs_view() == old(cfg).irs_view().insert(token, irs),
        final(cfg).module_address == old(cfg).module_address,
        final(cfg).compliance == old(cfg).compliance,
        final(cfg).hooks_verified == old(cfg).hooks_verified,
{
    cfg.irs.insert(token, irs);
}

/// The identity registry through which `token`'s identities and countries
/// are resolved, or `IdentityRegistryNotSet`.
pub fn get_irs_client(cfg: &ModuleConfig, token: u64) -> (r: Result<u64, ComplianceModuleError>)
    ensures
        cfg.irs_view().contains_key(token) ==> r == Ok::<u64, ComplianceModuleError>(
            cfg.irs_view()[token],
        ),
        !cfg.irs_view().contains_key(token) ==> r == Err::<u64, _>(
            ComplianceModuleError::IdentityRegistryNotSet,
        ),
{
    match cfg.irs.get(&token) {
        Some(a) => Ok(*a),
        None => Err(ComplianceModuleError::IdentityRegistryNotSet),
    }
}

/// The country code that a relation carries, whatever its kind.
pub open spec fn spec_country_code(relation: &CountryRelation) -> u32 {
    match relation {
        CountryRelation::Individual(rel) => match rel {
            IndividualCountryRelation::Residence(c) => *c,
            IndividualCountryRelation::Citizenship(c) => *c,
            IndividualCountryRelation::SourceOfFunds(c) => *c,
            IndividualCountryRelation::TaxResidency(c) => *c,
            IndividualCountryRelation::Custom(_, c) => *c,
        },
        CountryRelation::Organization(rel) => match rel {
            OrganizationCountryRelation::Incorporation(c) => *c,
            OrganizationCountryRelation::OperatingJurisdiction(c) => *c,
            OrganizationCountryRelation::TaxJurisdiction(c) => *c,
            OrganizationCountryRelation::SourceOfFunds(c) => *c,
            OrganizationCountryRelation::Custom(_, c) => *c,
        },
    }
}

/// Every kind of relation yields the country code it carries.
pub proof fn law_country_code_is_carried_code(code: u32, label: String)
    ensures
        spec_country_code(&CountryRelation::Individual(IndividualCountryRelation::Residence(code))) == code,
        spec_country_code(&CountryRelation::Individual(IndividualCountryRelation::Citizenship(code))) == code,
        spec_country_code(&CountryRelation::Individual(IndividualCountryRelation::SourceOfFunds(code))) == code,
        spec_country_code(&CountryRelation::Individual(IndividualCountryRelation::TaxResidency(code))) == code,
        spec_country_code(&CountryRelation::Individual(IndividualCountryRelation::Custom(label, code))) == code,
        spec_country_code(&CountryRelation::Organization(OrganizationCountryRelation::Incorporation(code)))
            == code,
        spec_country_code(
            &CountryRelation::Organization(OrganizationCountryRelation::OperatingJurisdiction(code)),
        ) == code,
        spec_country_code(&CountryRelation::Organization(OrganizationCountryRelation::TaxJurisdiction(code)))
            == code,
        spec_country_code(&CountryRelation::Organization(OrganizationCountryRelation::SourceOfFunds(code)))
            == code,
        spec_country_code(&CountryRelation::Organization(OrganizationCountryRelation::Custom(label, code)))
            == code,
{
}

/// A recipient one of whose entries carries a listed country is matched
/// by the list, whatever the kind of that entry's relation.
pub proof fn law_listed_country_entry_matches(
    list: Set<(u64, u64)>,
    token: u64,
    entries: Seq<CountryData>,
    i: int,
    code: u32,
)
    requires
        0 <= i < entries.len(),
        list.contains((token, code as u64)),
        entries[i].country == CountryRelation::Organization(OrganizationCountryRelation::Incorporation(code))
            || entries[i].country == CountryRelation::Organization(
            OrganizationCountryRelation::OperatingJurisdiction(code),
        ) || entries[i].country == CountryRelation::Organization(
            OrganizationCountryRelation::TaxJurisdiction(code),
        ) || entries[i].country == CountryRelation::Organization(
            OrganizationCountryRelation::SourceOfFunds(code),
        ) || entries[i].country == CountryRelation::Individual(IndividualCountryRelation::Residence(code))
            || entries[i].country == CountryRelation::Individual(
            IndividualCountryRelation::Citizenship(code),
        ) || entries[i].country == CountryRelation::Individual(
            IndividualCountryRelation::SourceOfFunds(code),
        ) || entries[i].country == CountryRelation::Individual(
            IndividualCountryRelation::TaxResidency(code),
        ) || (exists|label: String|
            entries[i].country == CountryRelation::Individual(IndividualCountryRelation::Custom(label, code))
                || entries[i].country == CountryRelation::Organization(
                OrganizationCountryRelation::Custom(label, code),
            )),
    ensures
        spec_any_country_listed(list, token, entries),
{
    assert(spec_country_code(&entries[i].country) == code);
}

/// Extracts the ISO 3166-1 numeric country code from any relation.
pub fn country_code(relation: &CountryRelation) -> (c: u32)
    ensures
        c == spec_country_code(relation),
{
    match relation {
        CountryRelation::Individual(rel) => match rel {
            IndividualCountryRelation::Residence(c)
            | IndividualCountryRelation::Citizenship(c)
            | IndividualCountryRelation::SourceOfFunds(c)
            | IndividualCountryRelation::TaxResidency(c) => *c,
            IndividualCountryRelation::Custom(_, c) => *c,
        },
        CountryRelation::Organization(rel) => match rel {
            OrganizationCountryRelation::Incorporation(c)
            | OrganizationCountryRelation::OperatingJurisdiction(c)
            | OrganizationCountryRelation::TaxJurisdiction(c)
            | OrganizationCountryRelation::SourceOfFunds(c) => *c,
            OrganizationCountryRelation::Custom(_, c) => *c,
        },
    }
}

/// The keys under which a list of countries stores its codes.
pub open spec fn country_keys(countries: Seq<u32>) -> Seq<u64> {
    countries.map_values(|c: u32| c as u64)
}

/// Whether some entry of `entries` carries a country that `list` holds
/// for `token`.
pub open spec fn spec_any_country_listed(list: Set<(u64, u64)>, token: u64, entries: Seq<CountryData>) -> bool {
    exists|i: int|
        0 <= i < entries.len() && list.contains(
            (token, spec_country_code(&#[trigger] entries[i].country) as u64),
        )
}

/// Whether some entry of `entries` carries a country that `list` holds
/// for `token`.
pub fn any_country_listed(list: &PairSet, token: u64, entries: &Vec<CountryData>) -> (b: bool)
    ensures
        b == spec_any_country_listed(list@, token, entries@),
{
    let n = entries.len();
    let mut i: usize = 0;
    while i < n
        invariant
            n == entries.len(),
            0 <= i <= n,
            forall|j: int|
                0 <= j < i ==> !list@.contains(
                    (token, spec_country_code(&#[trigger] entries@[j].country) as u64),
                ),
        decreases n - i,
    {
        let code = country_code(&entries[i].country);
        if list.contains(token, code as u64) {
            return true;
        }
        i = i + 1;
    }
    false
}

} // verus!
