use rwa_compliance::compliance::modules::initial_lockup_period::storage::{
    can_transfer, get_internal_balance, get_total_locked, on_created, on_destroyed, on_transfer,
    pre_set_lockup_state, verify_hook_wiring, LockedTokens,
};
use rwa_compliance::compliance::ComplianceHook;
use rwa_compliance::compliance_modules::common::{hooks_verified, set_compliance_address};
use rwa_compliance::compliance_modules::initial_lockup_period::InitialLockupPeriod;
use rwa_compliance::compliance_modules::ComplianceModuleError;

const MODULE: u64 = 1;
const COMPLIANCE: u64 = 2;
const TOKEN: u64 = 10;
const WALLET: u64 = 20;
const OTHER: u64 = 21;

fn armed() -> InitialLockupPeriod {
    let mut m = InitialLockupPeriod::new(MODULE);
    m.config.hooks_verified = true;
    m
}

#[test]
fn verify_hook_wiring_reports_first_missing_hook() {
    let mut m = InitialLockupPeriod::new(MODULE);
    set_compliance_address(&mut m.config, COMPLIANCE).unwrap();
    let r = verify_hook_wiring(&mut m, &vec![true, false, true, false]);
    assert_eq!(r, Err(ComplianceModuleError::MissingRequiredHook(ComplianceHook::Created)));
    assert!(!hooks_verified(&m.config));
}

#[test]
fn pre_set_lockup_state_seeds_existing_locked_balance() {
    let mut m = InitialLockupPeriod::new(MODULE);
    set_compliance_address(&mut m.config, COMPLIANCE).unwrap();
    m.config.hooks_verified = true;
    let now = 0u64;
    pre_set_lockup_state(
        &mut m,
        TOKEN,
        WALLET,
        100,
        &vec![LockedTokens { amount: 80, release_timestamp: now.saturating_add(60) }],
    )
    .unwrap();
    assert_eq!(get_internal_balance(&m, TOKEN, WALLET), 100);
    assert_eq!(get_total_locked(&m, TOKEN, WALLET), 80);
    assert!(!can_transfer(&m, WALLET, 21, TOKEN, now).unwrap());
    assert!(can_transfer(&m, WALLET, 20, TOKEN, now).unwrap());
}

#[test]
fn test_pre_set_lockup_state_seeds_existing_locked_balance() {
    let mut m = InitialLockupPeriod::new(MODULE);
    m.set_compliance_address(COMPLIANCE).unwrap();
    m.config.hooks_verified = true;
    let now = 0u64;
    m.pre_set_lockup_state(
        TOKEN,
        WALLET,
        100,
        &vec![LockedTokens { amount: 80, release_timestamp: now.saturating_add(60) }],
    )
    .unwrap();
    assert_eq!(m.get_internal_balance(TOKEN, WALLET), 100);
    assert_eq!(m.get_total_locked(TOKEN, WALLET), 80);
    assert!(!m.can_transfer(WALLET, OTHER, 21, TOKEN, now).unwrap());
    assert!(m.can_transfer(WALLET, OTHER, 20, TOKEN, now).unwrap());
}

#[test]
fn pre_set_rejects_locks_above_balance_and_negative_locks() {
    let mut m = armed();
    let r = m.pre_set_lockup_state(TOKEN, WALLET, 50, &vec![LockedTokens { amount: 80, release_timestamp: 5 }]);
    assert_eq!(r, Err(ComplianceModuleError::LockupExceedsBalance));
    let r = m.pre_set_lockup_state(TOKEN, WALLET, 50, &vec![LockedTokens { amount: -1, release_timestamp: 5 }]);
    assert_eq!(r, Err(ComplianceModuleError::InvalidAmount));
    let r = m.pre_set_lockup_state(TOKEN, WALLET, -5, &vec![]);
    assert_eq!(r, Err(ComplianceModuleError::InvalidAmount));
    assert_eq!(m.get_internal_balance(TOKEN, WALLET), 0);
}

#[test]
fn can_transfer_requires_verified_hooks() {
    let m = InitialLockupPeriod::new(MODULE);
    assert_eq!(m.can_transfer(WALLET, OTHER, 1, TOKEN, 0), Err(ComplianceModuleError::HooksNotVerified));
    let m = armed();
    assert_eq!(m.can_transfer(WALLET, OTHER, -1, TOKEN, 0), Ok(false));
}

#[test]
fn minted_tokens_lock_until_period_elapses() {
    let mut m = armed();
    m.set_lockup_period(TOKEN, 100);
    on_created(&mut m, WALLET, 500, TOKEN, 1_000).unwrap();
    assert_eq!(m.get_internal_balance(TOKEN, WALLET), 500);
    assert_eq!(m.get_total_locked(TOKEN, WALLET), 500);
    let locks = m.get_locked_tokens(TOKEN, WALLET);
    assert_eq!(locks, vec![LockedTokens { amount: 500, release_timestamp: 1_100 }]);
    assert!(!m.can_transfer(WALLET, OTHER, 1, TOKEN, 1_099).unwrap());
    assert!(m.can_transfer(WALLET, OTHER, 500, TOKEN, 1_100).unwrap());
    assert!(!m.can_transfer(WALLET, OTHER, 501, TOKEN, 1_100).unwrap());
}

#[test]
fn transfer_consumes_released_locks_oldest_first() {
    let mut m = armed();
    m.set_lockup_period(TOKEN, 10);
    on_created(&mut m, WALLET, 30, TOKEN, 0).unwrap();
    on_created(&mut m, WALLET, 50, TOKEN, 5).unwrap();
    // The module does not check the sender's balance itself.
    on_transfer(&mut m, OTHER, WALLET, 20, TOKEN, 6).unwrap();
    assert_eq!(m.get_internal_balance(TOKEN, OTHER), -20);
    // A peer transfer in is free.
    let mut m2 = armed();
    m2.pre_set_lockup_state(TOKEN, OTHER, 100, &vec![]).unwrap();
    m2.on_transfer(OTHER, WALLET, 20, TOKEN, 6).unwrap();
    assert_eq!(m2.get_internal_balance(TOKEN, WALLET), 20);
    assert_eq!(m2.get_total_locked(TOKEN, WALLET), 0);
    assert_eq!(m.get_internal_balance(TOKEN, WALLET), 100);
    // Balance 100, locks 30 (released at 10) and 50 (released at 15): free 20.
    m.pre_set_lockup_state(
        TOKEN,
        WALLET,
        100,
        &vec![
            LockedTokens { amount: 30, release_timestamp: 10 },
            LockedTokens { amount: 50, release_timestamp: 15 },
        ],
    )
    .unwrap();
    // At time 12 the first lock is released: 20 free + 30 released.
    assert!(m.can_transfer(WALLET, OTHER, 50, TOKEN, 12).unwrap());
    assert!(!m.can_transfer(WALLET, OTHER, 51, TOKEN, 12).unwrap());
    m.on_transfer(WALLET, OTHER, 35, TOKEN, 12).unwrap();
    assert_eq!(m.get_internal_balance(TOKEN, WALLET), 65);
    assert_eq!(m.get_internal_balance(TOKEN, OTHER), -20 + 35);
    assert_eq!(m.get_total_locked(TOKEN, WALLET), 65);
    assert_eq!(
        m.get_locked_tokens(TOKEN, WALLET),
        vec![
            LockedTokens { amount: 15, release_timestamp: 10 },
            LockedTokens { amount: 50, release_timestamp: 15 },
        ]
    );
}

#[test]
fn burn_cannot_use_unreleased_locks() {
    let mut m = armed();
    m.pre_set_lockup_state(TOKEN, WALLET, 100, &vec![LockedTokens { amount: 80, release_timestamp: 50 }])
        .unwrap();
    assert_eq!(
        on_destroyed(&mut m, WALLET, 21, TOKEN, 49),
        Err(ComplianceModuleError::InsufficientUnlockedBalance)
    );
    assert_eq!(m.get_internal_balance(TOKEN, WALLET), 100);
    m.on_destroyed(WALLET, 20, TOKEN, 49).unwrap();
    assert_eq!(m.get_internal_balance(TOKEN, WALLET), 80);
    assert_eq!(m.get_total_locked(TOKEN, WALLET), 80);
    m.on_destroyed(WALLET, 30, TOKEN, 50).unwrap();
    assert_eq!(m.get_internal_balance(TOKEN, WALLET), 50);
    assert_eq!(m.get_total_locked(TOKEN, WALLET), 50);
}

#[test]
fn no_lockup_period_means_no_locks() {
    let mut m = armed();
    assert_eq!(m.get_lockup_period(TOKEN), 0);
    m.on_created(WALLET, 40, TOKEN, 7).unwrap();
    assert_eq!(m.get_total_locked(TOKEN, WALLET), 0);
    assert!(m.get_locked_tokens(TOKEN, WALLET).is_empty());
    assert!(m.can_create(WALLET, 1, TOKEN));
    assert_eq!(InitialLockupPeriod::name(), "InitialLockupPeriodModule");
}
