use rwa_compliance::compliance::modules::initial_lockup_period::storage as lockup_storage;
use rwa_compliance::compliance::modules::max_balance::storage as max_balance_storage;
use rwa_compliance::compliance::modules::supply_limit::storage as supply_storage;
use rwa_compliance::compliance::ComplianceHook;
use rwa_compliance::compliance_modules::common::{hooks_verified, set_compliance_address};
use rwa_compliance::compliance_modules::initial_lockup_period::InitialLockupPeriod;
use rwa_compliance::compliance_modules::max_balance::MaxBalance;
use rwa_compliance::compliance_modules::supply_limit::SupplyLimit;
use rwa_compliance::compliance_modules::time_transfers_limits::TimeTransfersLimits;
use rwa_compliance::compliance_modules::ComplianceModuleError;

const MODULE: u64 = 1;
const COMPLIANCE: u64 = 2;

#[test]
fn verify_hook_wiring_sets_cache_when_registered() {
    let mut lockup = InitialLockupPeriod::new(MODULE);
    set_compliance_address(&mut lockup.config, COMPLIANCE).unwrap();
    lockup_storage::verify_hook_wiring(&mut lockup, &vec![true, true, true, true]).unwrap();
    assert!(hooks_verified(&lockup.config));

    let mut max_balance = MaxBalance::new(MODULE);
    set_compliance_address(&mut max_balance.config, COMPLIANCE).unwrap();
    max_balance_storage::verify_hook_wiring(&mut max_balance, &vec![true, true, true, true, true]).unwrap();
    assert!(hooks_verified(&max_balance.config));

    let mut supply = SupplyLimit::new(MODULE);
    set_compliance_address(&mut supply.config, COMPLIANCE).unwrap();
    supply_storage::verify_hook_wiring(&mut supply, &vec![true, true, true]).unwrap();
    assert!(hooks_verified(&supply.config));
}

#[test]
fn test_verify_hook_wiring_sets_cache_when_registered() {
    let mut max_balance = MaxBalance::new(MODULE);
    max_balance.set_compliance_address(COMPLIANCE).unwrap();
    max_balance.verify_hook_wiring(&vec![true, true, true, true, true]).unwrap();
    assert!(hooks_verified(&max_balance.config));

    let mut supply = SupplyLimit::new(MODULE);
    supply.set_compliance_address(COMPLIANCE).unwrap();
    supply.verify_hook_wiring(&vec![true, true, true]).unwrap();
    assert!(hooks_verified(&supply.config));

    let mut limits = TimeTransfersLimits::new(MODULE);
    limits.set_compliance_address(COMPLIANCE).unwrap();
    limits.verify_hook_wiring(&vec![true, true]).unwrap();
    assert!(hooks_verified(&limits.config));
}

#[test]
fn verify_hook_wiring_is_skipped_without_compliance_contract() {
    let mut supply = SupplyLimit::new(MODULE);
    supply.verify_hook_wiring(&vec![false, false, false]).unwrap();
    assert!(!hooks_verified(&supply.config));
}

#[test]
fn verify_hook_wiring_reports_first_missing_hook_of_each_module() {
    let mut max_balance = MaxBalance::new(MODULE);
    max_balance.set_compliance_address(COMPLIANCE).unwrap();
    assert_eq!(
        max_balance.verify_hook_wiring(&vec![true, true, false, false, true]),
        Err(ComplianceModuleError::MissingRequiredHook(ComplianceHook::Transferred))
    );
    assert!(!hooks_verified(&max_balance.config));

    let mut supply = SupplyLimit::new(MODULE);
    supply.set_compliance_address(COMPLIANCE).unwrap();
    assert_eq!(
        supply.verify_hook_wiring(&vec![false, true, true]),
        Err(ComplianceModuleError::MissingRequiredHook(ComplianceHook::CanCreate))
    );

    let mut limits = TimeTransfersLimits::new(MODULE);
    limits.set_compliance_address(COMPLIANCE).unwrap();
    assert_eq!(
        limits.verify_hook_wiring(&vec![true, false]),
        Err(ComplianceModuleError::MissingRequiredHook(ComplianceHook::Transferred))
    );
}

#[test]
fn compliance_address_is_set_once() {
    let mut supply = SupplyLimit::new(MODULE);
    assert_eq!(supply.get_compliance_address(), MODULE);
    supply.set_compliance_address(COMPLIANCE).unwrap();
    assert_eq!(supply.get_compliance_address(), COMPLIANCE);
    assert_eq!(supply.set_compliance_address(99), Err(ComplianceModuleError::ComplianceAddressAlreadySet));
    assert_eq!(supply.get_compliance_address(), COMPLIANCE);
}
