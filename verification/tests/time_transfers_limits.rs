use rwa_compliance::compliance_modules::time_transfers_limits::{
    Limit, TimeTransferLimitRemoved, TimeTransferLimitUpdated, TimeTransfersLimits, TransferCounter,
};
use rwa_compliance::compliance_modules::ComplianceModuleError;

const MODULE: u64 = 1;
const COMPLIANCE: u64 = 2;
const IRS: u64 = 3;
const TOKEN: u64 = 10;
const SENDER_ID: u64 = 40;

fn armed() -> TimeTransfersLimits {
    let mut m = TimeTransfersLimits::new(MODULE);
    m.set_compliance_address(COMPLIANCE).unwrap();
    m.set_identity_registry_storage(TOKEN, IRS);
    m.config.hooks_verified = true;
    m
}

#[test]
fn pre_set_transfer_counter_blocks_transfers_within_active_window() {
    let mut m = armed();
    let now = 0u64;
    m.set_time_transfer_limit(TOKEN, Limit { limit_time: 60, limit_value: 100 }).unwrap();
    m.pre_set_transfer_counter(TOKEN, SENDER_ID, 60, TransferCounter { value: 90, timer: now.saturating_add(60) })
        .unwrap();
    assert!(!m.can_transfer(SENDER_ID, 11, TOKEN, now).unwrap());
    assert!(m.can_transfer(SENDER_ID, 10, TOKEN, now).unwrap());
}

#[test]
fn set_time_transfer_limit_rejects_more_than_four_limits() {
    let mut m = TimeTransfersLimits::new(MODULE);
    m.set_compliance_address(COMPLIANCE).unwrap();
    for limit_time in [60_u64, 120, 180, 240] {
        m.set_time_transfer_limit(TOKEN, Limit { limit_time, limit_value: 100 }).unwrap();
    }
    assert_eq!(
        m.set_time_transfer_limit(TOKEN, Limit { limit_time: 300, limit_value: 100 }),
        Err(ComplianceModuleError::MathOverflow)
    );
    assert_eq!(m.get_time_transfer_limits(TOKEN).len(), 4);
}

#[test]
fn setting_an_existing_window_replaces_its_limit() {
    let mut m = armed();
    let ev = m.set_time_transfer_limit(TOKEN, Limit { limit_time: 60, limit_value: 100 }).unwrap();
    assert_eq!(ev, TimeTransferLimitUpdated { token: TOKEN, limit: Limit { limit_time: 60, limit_value: 100 } });
    m.set_time_transfer_limit(TOKEN, Limit { limit_time: 3600, limit_value: 500 }).unwrap();
    m.set_time_transfer_limit(TOKEN, Limit { limit_time: 60, limit_value: 50 }).unwrap();
    assert_eq!(
        m.get_time_transfer_limits(TOKEN),
        vec![Limit { limit_time: 60, limit_value: 50 }, Limit { limit_time: 3600, limit_value: 500 }]
    );
    assert_eq!(
        m.set_time_transfer_limit(TOKEN, Limit { limit_time: 0, limit_value: 1 }),
        Err(ComplianceModuleError::ZeroLimitTime)
    );
    assert_eq!(
        m.set_time_transfer_limit(TOKEN, Limit { limit_time: 5, limit_value: -1 }),
        Err(ComplianceModuleError::InvalidAmount)
    );
}

#[test]
fn removing_limits() {
    let mut m = armed();
    m.batch_set_time_transfer_limit(
        TOKEN,
        &vec![Limit { limit_time: 60, limit_value: 1 }, Limit { limit_time: 120, limit_value: 2 }],
    )
    .unwrap();
    assert_eq!(
        m.remove_time_transfer_limit(TOKEN, 60),
        Ok(TimeTransferLimitRemoved { token: TOKEN, limit_time: 60 })
    );
    assert_eq!(m.remove_time_transfer_limit(TOKEN, 60), Err(ComplianceModuleError::MissingLimit));
    assert_eq!(
        m.batch_remove_time_transfer_limit(TOKEN, &vec![120, 999]),
        Err(ComplianceModuleError::MissingLimit)
    );
    assert_eq!(m.get_time_transfer_limits(TOKEN), vec![Limit { limit_time: 120, limit_value: 2 }]);
    assert_eq!(
        m.batch_remove_time_transfer_limit(TOKEN, &vec![120]),
        Ok(vec![TimeTransferLimitRemoved { token: TOKEN, limit_time: 120 }])
    );
    assert!(m.get_time_transfer_limits(TOKEN).is_empty());
}

#[test]
fn transfers_fill_the_window_until_it_elapses() {
    let mut m = armed();
    m.set_time_transfer_limit(TOKEN, Limit { limit_time: 60, limit_value: 100 }).unwrap();
    m.on_transfer(SENDER_ID, 70, TOKEN, 1_000).unwrap();
    assert!(m.can_transfer(SENDER_ID, 30, TOKEN, 1_010).unwrap());
    assert!(!m.can_transfer(SENDER_ID, 31, TOKEN, 1_010).unwrap());
    m.on_transfer(SENDER_ID, 30, TOKEN, 1_010).unwrap();
    assert!(!m.can_transfer(SENDER_ID, 1, TOKEN, 1_059).unwrap());
    // The window opened at 1000 ends at 1060.
    assert!(m.can_transfer(SENDER_ID, 100, TOKEN, 1_060).unwrap());
    assert!(!m.can_transfer(SENDER_ID, 101, TOKEN, 1_060).unwrap());
}

#[test]
fn pre_set_transfer_counter_errors() {
    let mut m = armed();
    assert_eq!(
        m.pre_set_transfer_counter(TOKEN, SENDER_ID, 60, TransferCounter { value: -1, timer: 0 }),
        Err(ComplianceModuleError::InvalidAmount)
    );
    assert_eq!(
        m.pre_set_transfer_counter(TOKEN, SENDER_ID, 0, TransferCounter { value: 1, timer: 0 }),
        Err(ComplianceModuleError::ZeroLimitTime)
    );
    assert_eq!(
        m.pre_set_transfer_counter(TOKEN, SENDER_ID, 60, TransferCounter { value: 1, timer: 0 }),
        Err(ComplianceModuleError::MissingLimit)
    );
}

#[test]
fn checks_need_armed_hooks_and_registry() {
    let mut m = TimeTransfersLimits::new(MODULE);
    assert_eq!(m.can_transfer(SENDER_ID, 1, TOKEN, 0), Err(ComplianceModuleError::HooksNotVerified));
    m.config.hooks_verified = true;
    assert_eq!(m.can_transfer(SENDER_ID, -1, TOKEN, 0), Ok(false));
    assert_eq!(m.can_transfer(SENDER_ID, 1, TOKEN, 0), Err(ComplianceModuleError::IdentityRegistryNotSet));
    assert_eq!(m.on_transfer(SENDER_ID, 1, TOKEN, 0), Err(ComplianceModuleError::IdentityRegistryNotSet));
    assert_eq!(m.on_transfer(SENDER_ID, -1, TOKEN, 0), Err(ComplianceModuleError::InvalidAmount));
    assert!(m.can_create(SENDER_ID, 5, TOKEN));
    assert_eq!(TimeTransfersLimits::name(), "TimeTransfersLimitsModule");
}
