use rwa_compliance::compliance::modules::max_balance::storage::{
    batch_pre_set_identity_balances, can_create, can_transfer, configure_max_balance, get_id_balance,
    on_created, on_destroyed, on_transfer, pre_set_identity_balance, set_id_balance, set_max_balance,
};
use rwa_compliance::compliance::modules::max_balance::{IDBalancePreSet, MaxBalanceSet};
use rwa_compliance::compliance_modules::common::set_irs_address;
use rwa_compliance::compliance_modules::max_balance::MaxBalance;
use rwa_compliance::compliance_modules::ComplianceModuleError;

const MODULE: u64 = 1;
const IRS: u64 = 3;
const TOKEN: u64 = 10;
const SENDER_ID: u64 = 40;
const RECIPIENT_ID: u64 = 41;

fn with_irs() -> MaxBalance {
    let mut m = MaxBalance::new(MODULE);
    set_irs_address(&mut m.config, TOKEN, IRS);
    m
}

fn arm_hooks(m: &mut MaxBalance) {
    m.config.hooks_verified = true;
}

#[test]
fn can_create_rejects_mint_when_cap_would_be_exceeded() {
    let mut m = with_irs();
    arm_hooks(&mut m);
    set_max_balance(&mut m, TOKEN, 100);
    set_id_balance(&mut m, TOKEN, RECIPIENT_ID, 60);
    assert!(!can_create(&m, RECIPIENT_ID, 50, TOKEN).unwrap());
    assert!(can_create(&m, RECIPIENT_ID, 40, TOKEN).unwrap());
}

#[test]
fn can_transfer_checks_distinct_recipient_identity_balance() {
    let mut m = with_irs();
    arm_hooks(&mut m);
    set_max_balance(&mut m, TOKEN, 100);
    set_id_balance(&mut m, TOKEN, RECIPIENT_ID, 60);
    assert!(!can_transfer(&m, SENDER_ID, RECIPIENT_ID, 50, TOKEN).unwrap());
    assert!(can_transfer(&m, SENDER_ID, RECIPIENT_ID, 40, TOKEN).unwrap());
}

#[test]
fn can_create_rejects_without_cap_and_rejects_negative_amount() {
    let mut m = with_irs();
    arm_hooks(&mut m);
    set_id_balance(&mut m, TOKEN, RECIPIENT_ID, 500);
    assert!(!can_create(&m, RECIPIENT_ID, 1_000, TOKEN).unwrap());
    assert!(!can_create(&m, RECIPIENT_ID, -1, TOKEN).unwrap());
}

#[test]
fn can_create_rejects_negative_amount_before_requiring_irs() {
    let mut m = MaxBalance::new(MODULE);
    arm_hooks(&mut m);
    assert!(!can_create(&m, RECIPIENT_ID, -1, TOKEN).unwrap());
}

#[test]
fn can_transfer_rejects_negative_amount_before_requiring_irs() {
    let mut m = MaxBalance::new(MODULE);
    arm_hooks(&mut m);
    assert!(!can_transfer(&m, SENDER_ID, RECIPIENT_ID, -1, TOKEN).unwrap());
}

#[test]
fn can_transfer_allows_when_sender_and_recipient_share_identity() {
    let mut m = with_irs();
    arm_hooks(&mut m);
    set_max_balance(&mut m, TOKEN, 1);
    // Both wallets resolve to one identity.
    assert!(can_transfer(&m, SENDER_ID, SENDER_ID, 1_000, TOKEN).unwrap());
}

#[test]
fn on_transfer_updates_balances_for_distinct_identities() {
    let mut m = with_irs();
    set_max_balance(&mut m, TOKEN, 200);
    set_id_balance(&mut m, TOKEN, SENDER_ID, 100);
    set_id_balance(&mut m, TOKEN, RECIPIENT_ID, 20);
    on_transfer(&mut m, SENDER_ID, RECIPIENT_ID, 30, TOKEN).unwrap();
    assert_eq!(get_id_balance(&m, TOKEN, SENDER_ID), 70);
    assert_eq!(get_id_balance(&m, TOKEN, RECIPIENT_ID), 50);
}

#[test]
fn on_transfer_is_noop_for_same_identity() {
    let mut m = with_irs();
    set_id_balance(&mut m, TOKEN, SENDER_ID, 100);
    on_transfer(&mut m, SENDER_ID, SENDER_ID, 30, TOKEN).unwrap();
    assert_eq!(get_id_balance(&m, TOKEN, SENDER_ID), 100);
}

#[test]
fn on_created_updates_identity_balance() {
    let mut m = with_irs();
    set_max_balance(&mut m, TOKEN, 200);
    set_id_balance(&mut m, TOKEN, RECIPIENT_ID, 50);
    on_created(&mut m, RECIPIENT_ID, 30, TOKEN).unwrap();
    assert_eq!(get_id_balance(&m, TOKEN, RECIPIENT_ID), 80);
}

#[test]
fn on_destroyed_updates_identity_balance() {
    let mut m = with_irs();
    set_id_balance(&mut m, TOKEN, RECIPIENT_ID, 90);
    on_destroyed(&mut m, RECIPIENT_ID, 40, TOKEN).unwrap();
    assert_eq!(get_id_balance(&m, TOKEN, RECIPIENT_ID), 50);
}

#[test]
fn test_can_create_rejects_mint_when_cap_would_be_exceeded() {
    let mut m = with_irs();
    arm_hooks(&mut m);
    m.set_max_balance(TOKEN, 100).unwrap();
    m.pre_set_identity_balance(TOKEN, RECIPIENT_ID, 60).unwrap();
    assert!(!m.can_create(RECIPIENT_ID, 50, TOKEN).unwrap());
    assert!(m.can_create(RECIPIENT_ID, 40, TOKEN).unwrap());
}

#[test]
fn test_can_transfer_checks_distinct_recipient_identity_balance() {
    let mut m = with_irs();
    arm_hooks(&mut m);
    m.set_max_balance(TOKEN, 100).unwrap();
    m.pre_set_identity_balance(TOKEN, RECIPIENT_ID, 60).unwrap();
    assert!(!m.can_transfer(SENDER_ID, RECIPIENT_ID, 50, TOKEN).unwrap());
    assert!(m.can_transfer(SENDER_ID, RECIPIENT_ID, 40, TOKEN).unwrap());
}

#[test]
fn can_create_allows_without_cap_and_rejects_negative_amount() {
    let mut m = with_irs();
    arm_hooks(&mut m);
    m.pre_set_identity_balance(TOKEN, RECIPIENT_ID, 500).unwrap();
    assert!(m.can_create(RECIPIENT_ID, 1_000, TOKEN).unwrap());
    assert!(!m.can_create(RECIPIENT_ID, -1, TOKEN).unwrap());
}

#[test]
fn test_can_create_rejects_negative_amount_before_requiring_irs() {
    let mut m = MaxBalance::new(MODULE);
    arm_hooks(&mut m);
    assert!(!m.can_create(RECIPIENT_ID, -1, TOKEN).unwrap());
}

#[test]
fn checks_refuse_without_irs_or_armed_hooks() {
    let mut m = MaxBalance::new(MODULE);
    assert_eq!(m.can_create(RECIPIENT_ID, 1, TOKEN), Err(ComplianceModuleError::HooksNotVerified));
    arm_hooks(&mut m);
    assert_eq!(m.can_create(RECIPIENT_ID, 1, TOKEN), Err(ComplianceModuleError::IdentityRegistryNotSet));
    assert_eq!(m.on_created(RECIPIENT_ID, 1, TOKEN), Err(ComplianceModuleError::IdentityRegistryNotSet));
    assert_eq!(m.on_created(RECIPIENT_ID, -1, TOKEN), Err(ComplianceModuleError::InvalidAmount));
}

#[test]
fn hooks_refuse_to_exceed_cap_and_leave_state() {
    let mut m = with_irs();
    m.set_max_balance(TOKEN, 100).unwrap();
    m.pre_set_identity_balance(TOKEN, SENDER_ID, 90).unwrap();
    m.pre_set_identity_balance(TOKEN, RECIPIENT_ID, 90).unwrap();
    assert_eq!(m.on_created(RECIPIENT_ID, 11, TOKEN), Err(ComplianceModuleError::MaxBalanceExceeded));
    assert_eq!(
        m.on_transfer(SENDER_ID, RECIPIENT_ID, 11, TOKEN),
        Err(ComplianceModuleError::MaxBalanceExceeded)
    );
    assert_eq!(m.get_investor_balance(TOKEN, SENDER_ID), 90);
    assert_eq!(m.get_investor_balance(TOKEN, RECIPIENT_ID), 90);
    m.on_transfer(SENDER_ID, RECIPIENT_ID, 10, TOKEN).unwrap();
    assert_eq!(m.get_investor_balance(TOKEN, SENDER_ID), 80);
    assert_eq!(m.get_investor_balance(TOKEN, RECIPIENT_ID), 100);
}

#[test]
fn burn_undoes_mint_and_underflow_is_refused() {
    let mut m = with_irs();
    m.on_created(RECIPIENT_ID, 30, TOKEN).unwrap();
    assert_eq!(m.get_investor_balance(TOKEN, RECIPIENT_ID), 30);
    m.on_destroyed(RECIPIENT_ID, 30, TOKEN).unwrap();
    assert_eq!(m.get_investor_balance(TOKEN, RECIPIENT_ID), 0);
    m.pre_set_identity_balance(TOKEN, SENDER_ID, 0).unwrap();
    assert_eq!(m.on_destroyed(SENDER_ID, 1, TOKEN), Ok(()));
    assert_eq!(m.get_investor_balance(TOKEN, SENDER_ID), -1);
    set_id_balance(&mut m, TOKEN, SENDER_ID, i128::MIN);
    assert_eq!(m.on_destroyed(SENDER_ID, 1, TOKEN), Err(ComplianceModuleError::MathUnderflow));
}

#[test]
fn configuration_and_seeding_report_events() {
    let mut m = MaxBalance::new(MODULE);
    assert_eq!(configure_max_balance(&mut m, TOKEN, -1), Err(ComplianceModuleError::InvalidAmount));
    assert_eq!(
        configure_max_balance(&mut m, TOKEN, 7),
        Ok(MaxBalanceSet { token: TOKEN, max_balance: 7 })
    );
    assert_eq!(m.get_max_balance(TOKEN), 7);
    assert_eq!(
        pre_set_identity_balance(&mut m, TOKEN, SENDER_ID, 5),
        Ok(IDBalancePreSet { token: TOKEN, identity: SENDER_ID, balance: 5 })
    );
    assert_eq!(
        batch_pre_set_identity_balances(&mut m, TOKEN, &vec![1, 2], &vec![3]),
        Err(ComplianceModuleError::VectorLengthMismatch)
    );
    assert_eq!(
        batch_pre_set_identity_balances(&mut m, TOKEN, &vec![1, 2], &vec![3, -4]),
        Err(ComplianceModuleError::InvalidAmount)
    );
    assert_eq!(m.get_investor_balance(TOKEN, 1), 0);
    let events = batch_pre_set_identity_balances(&mut m, TOKEN, &vec![1, 2], &vec![3, 4]).unwrap();
    assert_eq!(
        events,
        vec![
            IDBalancePreSet { token: TOKEN, identity: 1, balance: 3 },
            IDBalancePreSet { token: TOKEN, identity: 2, balance: 4 },
        ]
    );
    assert_eq!(m.get_investor_balance(TOKEN, 1), 3);
    assert_eq!(m.get_investor_balance(TOKEN, 2), 4);
    assert_eq!(MaxBalance::name(), "MaxBalanceModule");
}
