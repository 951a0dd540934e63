use rwa_compliance::compliance::modules::transfer_restrict::storage::{
    allow_user, batch_allow_users, batch_disallow_users, can_transfer, disallow_user, is_user_allowed,
};
use rwa_compliance::compliance::modules::transfer_restrict::{UserAllowed, UserDisallowed};
use rwa_compliance::compliance_modules::transfer_restrict::TransferRestrict;

const MODULE: u64 = 1;
const COMPLIANCE: u64 = 2;
const TOKEN: u64 = 10;
const SENDER: u64 = 20;
const RECIPIENT: u64 = 21;
const OUTSIDER: u64 = 22;

fn module() -> TransferRestrict {
    let mut m = TransferRestrict::new(MODULE);
    m.set_compliance_address(COMPLIANCE).unwrap();
    m
}

#[test]
fn can_transfer_allows_sender_or_recipient_when_allowlisted() {
    let mut m = module();
    assert!(!can_transfer(&m, SENDER, RECIPIENT, TOKEN));
    allow_user(&mut m, TOKEN, SENDER);
    assert!(can_transfer(&m, SENDER, OUTSIDER, TOKEN));
    disallow_user(&mut m, TOKEN, SENDER);
    allow_user(&mut m, TOKEN, RECIPIENT);
    assert!(can_transfer(&m, OUTSIDER, RECIPIENT, TOKEN));
}

#[test]
fn batch_allow_and_disallow_update_allowlist_entries() {
    let mut m = module();
    batch_allow_users(&mut m, TOKEN, &vec![SENDER, RECIPIENT]);
    assert!(is_user_allowed(&m, TOKEN, SENDER));
    assert!(is_user_allowed(&m, TOKEN, RECIPIENT));
    batch_disallow_users(&mut m, TOKEN, &vec![SENDER, RECIPIENT]);
    assert!(!is_user_allowed(&m, TOKEN, SENDER));
    assert!(!is_user_allowed(&m, TOKEN, RECIPIENT));
}

#[test]
fn test_can_transfer_allows_sender_or_recipient_when_allowlisted() {
    let mut m = module();
    assert!(!m.can_transfer(SENDER, RECIPIENT, 100, TOKEN));
    m.allow_user(TOKEN, SENDER);
    assert!(m.can_transfer(SENDER, OUTSIDER, 100, TOKEN));
    m.disallow_user(TOKEN, SENDER);
    m.allow_user(TOKEN, RECIPIENT);
    assert!(m.can_transfer(OUTSIDER, RECIPIENT, 100, TOKEN));
}

#[test]
fn test_batch_allow_and_disallow_update_allowlist_entries() {
    let mut m = module();
    m.batch_allow_users(TOKEN, &vec![SENDER, RECIPIENT]);
    assert!(m.is_user_allowed(TOKEN, SENDER));
    assert!(m.is_user_allowed(TOKEN, RECIPIENT));
    m.batch_disallow_users(TOKEN, &vec![SENDER, RECIPIENT]);
    assert!(!m.is_user_allowed(TOKEN, SENDER));
    assert!(!m.is_user_allowed(TOKEN, RECIPIENT));
}

#[test]
fn earlier_generation_reports_only_changes() {
    let mut m = module();
    assert_eq!(allow_user(&mut m, TOKEN, SENDER), Some(UserAllowed { token: TOKEN, user: SENDER }));
    assert_eq!(allow_user(&mut m, TOKEN, SENDER), None);
    let events = batch_allow_users(&mut m, TOKEN, &vec![SENDER, RECIPIENT, RECIPIENT]);
    assert_eq!(events, vec![UserAllowed { token: TOKEN, user: RECIPIENT }]);
    assert_eq!(disallow_user(&mut m, TOKEN, OUTSIDER), None);
    let events = batch_disallow_users(&mut m, TOKEN, &vec![RECIPIENT, OUTSIDER, SENDER]);
    assert_eq!(
        events,
        vec![UserDisallowed { token: TOKEN, user: RECIPIENT }, UserDisallowed { token: TOKEN, user: SENDER }]
    );
    assert!(!is_user_allowed(&m, TOKEN, SENDER));
}

#[test]
fn later_generation_reports_every_call() {
    let mut m = module();
    assert_eq!(m.allow_user(TOKEN, SENDER), UserAllowed { token: TOKEN, user: SENDER });
    assert_eq!(m.allow_user(TOKEN, SENDER), UserAllowed { token: TOKEN, user: SENDER });
    assert_eq!(
        m.batch_allow_users(TOKEN, &vec![SENDER, RECIPIENT]),
        vec![UserAllowed { token: TOKEN, user: SENDER }, UserAllowed { token: TOKEN, user: RECIPIENT }]
    );
    assert_eq!(m.disallow_user(TOKEN, OUTSIDER), UserDisallowed { token: TOKEN, user: OUTSIDER });
    // Allowlists are per token.
    assert!(!m.is_user_allowed(TOKEN + 1, SENDER));
    assert!(m.can_create(OUTSIDER, 5, TOKEN));
    assert_eq!(TransferRestrict::name(), "TransferRestrictModule");
}
