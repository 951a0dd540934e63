use rwa_compliance::compliance::modules::country_allow::storage::{
    is_country_allowed, remove_country_allowed, set_country_allowed,
};
use rwa_compliance::compliance::modules::country_allow::{CountryAllowed, CountryUnallowed};
use rwa_compliance::compliance_modules::common::{country_code, set_irs_address};
use rwa_compliance::compliance_modules::country_allow::CountryAllow;
use rwa_compliance::compliance_modules::country_restrict::{CountryRestrict, CountryRestricted};
use rwa_compliance::compliance_modules::ComplianceModuleError;
use rwa_compliance::identity_registry_storage::{
    CountryData, CountryRelation, IndividualCountryRelation, OrganizationCountryRelation,
};

const MODULE: u64 = 1;
const IRS: u64 = 3;
const TOKEN: u64 = 10;

fn individual_country(code: u32) -> CountryData {
    CountryData { country: CountryRelation::Individual(IndividualCountryRelation::Residence(code)) }
}

fn organization_country(code: u32) -> CountryData {
    CountryData { country: CountryRelation::Organization(OrganizationCountryRelation::OperatingJurisdiction(code)) }
}

#[test]
fn can_transfer_and_create_allow_when_any_country_matches() {
    let mut m = CountryAllow::new(MODULE);
    let to_entries = vec![individual_country(250), organization_country(276)];
    set_irs_address(&mut m.config, TOKEN, IRS);
    set_country_allowed(&mut m, TOKEN, 276);
    assert!(m.can_transfer(&to_entries, TOKEN).unwrap());
    assert!(m.can_create(&to_entries, TOKEN).unwrap());
}

#[test]
fn can_transfer_and_create_reject_when_no_country_matches() {
    let mut m = CountryAllow::new(MODULE);
    let empty_to: Vec<CountryData> = vec![];
    let disallowed_to = vec![individual_country(250)];
    set_irs_address(&mut m.config, TOKEN, IRS);
    set_country_allowed(&mut m, TOKEN, 276);
    assert!(!m.can_transfer(&empty_to, TOKEN).unwrap());
    assert!(!m.can_create(&empty_to, TOKEN).unwrap());
    assert!(!m.can_transfer(&disallowed_to, TOKEN).unwrap());
    assert!(!m.can_create(&disallowed_to, TOKEN).unwrap());
}

#[test]
fn checks_need_an_identity_registry() {
    let m = CountryAllow::new(MODULE);
    assert_eq!(m.can_transfer(&vec![individual_country(1)], TOKEN), Err(ComplianceModuleError::IdentityRegistryNotSet));
    let r = CountryRestrict::new(MODULE);
    assert_eq!(r.can_create(&vec![], TOKEN), Err(ComplianceModuleError::IdentityRegistryNotSet));
}

#[test]
fn allowlist_reads_back_what_was_written() {
    let mut m = CountryAllow::new(MODULE);
    assert!(!is_country_allowed(&m, TOKEN, 840));
    assert_eq!(m.add_allowed_country(TOKEN, 840), CountryAllowed { token: TOKEN, country: 840 });
    assert!(m.is_country_allowed(TOKEN, 840));
    assert!(!m.is_country_allowed(TOKEN + 1, 840));
    assert_eq!(m.remove_allowed_country(TOKEN, 840), CountryUnallowed { token: TOKEN, country: 840 });
    assert!(!m.is_country_allowed(TOKEN, 840));
    let events = m.batch_allow_countries(TOKEN, &vec![250, 276]);
    assert_eq!(
        events,
        vec![CountryAllowed { token: TOKEN, country: 250 }, CountryAllowed { token: TOKEN, country: 276 }]
    );
    assert!(m.is_country_allowed(TOKEN, 250) && m.is_country_allowed(TOKEN, 276));
    m.batch_disallow_countries(TOKEN, &vec![276, 999]);
    assert!(m.is_country_allowed(TOKEN, 250) && !m.is_country_allowed(TOKEN, 276));
    remove_country_allowed(&mut m, TOKEN, 250);
    assert!(!m.is_country_allowed(TOKEN, 250));
    assert_eq!(CountryAllow::name(), "CountryAllowModule");
}

#[test]
fn restriction_blocks_what_the_allowlist_admits() {
    let entries = vec![individual_country(250), organization_country(276)];
    let mut allow = CountryAllow::new(MODULE);
    let mut restrict = CountryRestrict::new(MODULE);
    allow.set_identity_registry_storage(TOKEN, IRS);
    restrict.set_identity_registry_storage(TOKEN, IRS);
    assert!(restrict.can_transfer(&entries, TOKEN).unwrap());
    assert_eq!(restrict.add_country_restriction(TOKEN, 276), CountryRestricted { token: TOKEN, country: 276 });
    allow.add_allowed_country(TOKEN, 276);
    assert!(!restrict.can_transfer(&entries, TOKEN).unwrap());
    assert!(allow.can_transfer(&entries, TOKEN).unwrap());
    restrict.batch_unrestrict_countries(TOKEN, &vec![276]);
    assert!(restrict.can_create(&entries, TOKEN).unwrap());
    restrict.batch_restrict_countries(TOKEN, &vec![1, 250]);
    assert!(restrict.is_country_restricted(TOKEN, 250));
    assert!(!restrict.can_transfer(&entries, TOKEN).unwrap());
    restrict.remove_country_restriction(TOKEN, 250);
    assert!(restrict.can_transfer(&entries, TOKEN).unwrap());
    assert_eq!(CountryRestrict::name(), "CountryRestrictModule");
}

#[test]
fn country_code_reads_every_relation() {
    assert_eq!(country_code(&CountryRelation::Individual(IndividualCountryRelation::Citizenship(4))), 4);
    assert_eq!(
        country_code(&CountryRelation::Individual(IndividualCountryRelation::Custom("x".to_string(), 7))),
        7
    );
    assert_eq!(country_code(&CountryRelation::Organization(OrganizationCountryRelation::TaxJurisdiction(9))), 9);
    assert_eq!(
        country_code(&CountryRelation::Organization(OrganizationCountryRelation::Custom("y".to_string(), 11))),
        11
    );
}
