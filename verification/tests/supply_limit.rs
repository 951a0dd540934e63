use rwa_compliance::compliance::modules::supply_limit::storage::{
    can_create, configure_supply_limit, get_internal_supply, get_supply_limit, get_supply_limit_or_panic,
    on_created, on_destroyed, pre_set_supply,
};
use rwa_compliance::compliance::modules::supply_limit::SupplyLimitSet;
use rwa_compliance::compliance_modules::supply_limit::SupplyLimit;
use rwa_compliance::compliance_modules::ComplianceModuleError;

const MODULE: u64 = 1;
const COMPLIANCE: u64 = 2;
const TOKEN: u64 = 10;
const RECIPIENT: u64 = 20;

fn arm_hooks(m: &mut SupplyLimit) {
    m.config.hooks_verified = true;
}

#[test]
fn get_supply_limit_returns_zero_when_unconfigured() {
    let m = SupplyLimit::new(MODULE);
    assert_eq!(get_supply_limit(&m, TOKEN), 0);
}

#[test]
fn can_create_rejects_when_limit_is_unset_and_rejects_negative_amount() {
    let mut m = SupplyLimit::new(MODULE);
    arm_hooks(&mut m);
    assert!(!can_create(&m, 100, TOKEN).unwrap());
    assert!(!can_create(&m, -1, TOKEN).unwrap());
}

#[test]
fn hooks_update_internal_supply_and_cap_future_mints() {
    let mut m = SupplyLimit::new(MODULE);
    arm_hooks(&mut m);
    configure_supply_limit(&mut m, TOKEN, 100).unwrap();
    assert!(can_create(&m, 80, TOKEN).unwrap());
    on_created(&mut m, 80, TOKEN).unwrap();
    assert_eq!(get_internal_supply(&m, TOKEN), 80);
    assert!(!can_create(&m, 30, TOKEN).unwrap());
    on_destroyed(&mut m, 20, TOKEN).unwrap();
    assert_eq!(get_internal_supply(&m, TOKEN), 60);
    assert!(can_create(&m, 40, TOKEN).unwrap());
}

#[test]
fn pre_set_internal_supply_seeds_existing_supply_for_cap_checks() {
    let mut m = SupplyLimit::new(MODULE);
    arm_hooks(&mut m);
    configure_supply_limit(&mut m, TOKEN, 100).unwrap();
    pre_set_supply(&mut m, TOKEN, 90).unwrap();
    assert_eq!(get_internal_supply(&m, TOKEN), 90);
    assert!(!can_create(&m, 11, TOKEN).unwrap());
    assert!(can_create(&m, 10, TOKEN).unwrap());
}

#[test]
fn get_supply_limit_or_panic_returns_configured_limit() {
    let mut m = SupplyLimit::new(MODULE);
    configure_supply_limit(&mut m, TOKEN, 100).unwrap();
    assert_eq!(get_supply_limit_or_panic(&m, TOKEN), Ok(100));
}

#[test]
fn get_supply_limit_or_panic_panics_when_unconfigured() {
    let m = SupplyLimit::new(MODULE);
    assert_eq!(get_supply_limit_or_panic(&m, TOKEN), Err(ComplianceModuleError::MissingLimit));
}

#[test]
fn test_get_supply_limit_returns_zero_when_unconfigured() {
    let m = SupplyLimit::new(MODULE);
    assert_eq!(m.get_supply_limit(TOKEN), 0);
}

#[test]
fn can_create_allows_when_limit_is_unset_and_rejects_negative_amount() {
    let mut m = SupplyLimit::new(MODULE);
    arm_hooks(&mut m);
    assert!(m.can_create(100, TOKEN).unwrap());
    assert!(!m.can_create(-1, TOKEN).unwrap());
}

#[test]
fn test_hooks_update_internal_supply_and_cap_future_mints() {
    let mut m = SupplyLimit::new(MODULE);
    m.set_compliance_address(COMPLIANCE).unwrap();
    arm_hooks(&mut m);
    m.set_supply_limit(TOKEN, 100).unwrap();
    assert!(m.can_create(80, TOKEN).unwrap());
    m.on_created(80, TOKEN).unwrap();
    assert_eq!(m.get_internal_supply(TOKEN), 80);
    assert!(!m.can_create(30, TOKEN).unwrap());
    m.on_destroyed(20, TOKEN).unwrap();
    assert_eq!(m.get_internal_supply(TOKEN), 60);
    assert!(m.can_create(40, TOKEN).unwrap());
}

#[test]
fn test_pre_set_internal_supply_seeds_existing_supply_for_cap_checks() {
    let mut m = SupplyLimit::new(MODULE);
    m.set_compliance_address(COMPLIANCE).unwrap();
    arm_hooks(&mut m);
    m.set_supply_limit(TOKEN, 100).unwrap();
    m.pre_set_internal_supply(TOKEN, 90).unwrap();
    assert_eq!(m.get_internal_supply(TOKEN), 90);
    assert!(!m.can_create(11, TOKEN).unwrap());
    assert!(m.can_create(10, TOKEN).unwrap());
}

#[test]
fn supply_errors_and_events() {
    let mut m = SupplyLimit::new(MODULE);
    assert_eq!(m.can_create(1, TOKEN), Err(ComplianceModuleError::HooksNotVerified));
    assert_eq!(m.set_supply_limit(TOKEN, -1), Err(ComplianceModuleError::InvalidAmount));
    assert_eq!(m.set_supply_limit(TOKEN, 5), Ok(SupplyLimitSet { token: TOKEN, limit: 5 }));
    assert_eq!(m.pre_set_internal_supply(TOKEN, -1), Err(ComplianceModuleError::InvalidAmount));
    assert_eq!(m.on_created(-1, TOKEN), Err(ComplianceModuleError::InvalidAmount));
    assert_eq!(m.on_destroyed(-1, TOKEN), Err(ComplianceModuleError::InvalidAmount));
    m.pre_set_internal_supply(TOKEN, i128::MAX).unwrap();
    assert_eq!(m.on_created(1, TOKEN), Err(ComplianceModuleError::MathOverflow));
    arm_hooks(&mut m);
    assert_eq!(m.can_create(1, TOKEN), Err(ComplianceModuleError::MathOverflow));
    assert_eq!(m.get_internal_supply(TOKEN), i128::MAX);
    m.on_destroyed(i128::MAX, TOKEN).unwrap();
    m.on_destroyed(i128::MAX, TOKEN).unwrap();
    assert_eq!(m.on_destroyed(2, TOKEN), Err(ComplianceModuleError::MathUnderflow));
    assert!(m.can_transfer(RECIPIENT, RECIPIENT, 5, TOKEN));
    assert_eq!(SupplyLimit::name(), "SupplyLimitModule");
}

#[test]
fn burn_undoes_mint() {
    let mut m = SupplyLimit::new(MODULE);
    m.pre_set_internal_supply(TOKEN, 40).unwrap();
    m.on_created(25, TOKEN).unwrap();
    m.on_destroyed(25, TOKEN).unwrap();
    assert_eq!(m.get_internal_supply(TOKEN), 40);
    assert_eq!(m.get_internal_supply(TOKEN + 1), 0);
}

#[test]
fn earlier_generation_applies_zero_cap() {
    let mut m = SupplyLimit::new(MODULE);
    arm_hooks(&mut m);
    assert!(can_create(&m, 0, TOKEN).unwrap());
    assert!(!can_create(&m, 1, TOKEN).unwrap());
    assert!(m.can_create(1, TOKEN).unwrap());
}
