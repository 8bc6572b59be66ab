use lana_core::customer::{
    default_escheatment_threshold_days, default_inactivity_threshold_days, AccountStatus,
    ActivityType, Customer, CustomerConfig, CustomerEvent, CustomerType, KycLevel,
};
use lana_core::primitives::{now, AuditEntryId, AuditInfo, Duration, EntityId};
use lana_core::public_id::PublicId;

fn audit(entry: i64) -> AuditInfo {
    AuditInfo { audit_entry_id: AuditEntryId::new(entry), sub: "System".to_string() }
}

fn create_test_customer() -> Customer {
    let events = vec![CustomerEvent::Initialized {
        id: EntityId::new(),
        email: "test@example.com".to_string(),
        telegram_id: "test_telegram".to_string(),
        customer_type: CustomerType::Individual,
        public_id: PublicId::new("test-public-id".to_string()),
        audit_info: audit(1),
    }];
    Customer::try_from_events(events).unwrap()
}

#[test]
fn test_record_activity_updates_last_activity() {
    let mut customer = create_test_customer();
    assert!(customer.last_activity.is_none());

    let result = customer.record_activity(ActivityType::AccountView, audit(2));
    assert!(result.did_execute());
    assert!(customer.last_activity.is_some());

    let recorded_time = customer.last_activity.unwrap();
    let now = now();
    assert!(now - recorded_time < Duration::seconds(5).micros);
}

#[test]
fn test_get_account_status_with_no_activity() {
    let customer = create_test_customer();
    let status = customer.get_account_status(Duration::days(365));
    assert_eq!(status, AccountStatus::Inactive);
}

#[test]
fn test_get_account_status_with_recent_activity() {
    let mut customer = create_test_customer();
    customer.record_activity(ActivityType::AccountView, audit(3)).unwrap();
    let status = customer.get_account_status(Duration::days(365));
    assert_eq!(status, AccountStatus::Active);
}

#[test]
fn test_get_account_status_with_old_activity() {
    let mut customer = create_test_customer();
    customer.last_activity = Some(now() - Duration::days(730).micros);
    let status = customer.get_account_status(Duration::days(365));
    assert_eq!(status, AccountStatus::Inactive);
}

#[test]
fn test_get_effective_account_status_with_kyc_inactive() {
    let mut customer = create_test_customer();
    customer.status = AccountStatus::Inactive;
    customer.record_activity(ActivityType::AccountView, audit(6)).unwrap();
    let status = customer.get_effective_account_status();
    assert_eq!(status, AccountStatus::Inactive);
}

#[test]
fn test_get_effective_account_status_with_kyc_active() {
    let mut customer = create_test_customer();
    customer.status = AccountStatus::Active;
    customer.record_activity(ActivityType::AccountView, audit(7)).unwrap();
    let status = customer.get_effective_account_status();
    assert_eq!(status, AccountStatus::Active);
}

#[test]
fn test_activity_recorded_event_is_created() {
    let mut customer = create_test_customer();
    let initial_event_count = customer.events.len();

    customer.record_activity(ActivityType::Transaction, audit(8).clone()).unwrap();

    assert_eq!(customer.events.len(), initial_event_count + 1);
    let last_event = customer.events.last().unwrap();
    match last_event {
        CustomerEvent::ActivityRecorded { activity_type, .. } => {
            assert_eq!(*activity_type, ActivityType::Transaction);
        }
        _ => panic!("Expected ActivityRecorded event"),
    }
}

#[test]
fn test_idempotency_of_record_activity() {
    let mut customer = create_test_customer();

    let result1 = customer.record_activity(ActivityType::AccountView, audit(9).clone());
    assert!(result1.did_execute());
    let first_activity_time = customer.last_activity.unwrap();

    let result2 = customer.record_activity(ActivityType::AccountView, audit(9));
    assert!(!result2.did_execute());
    assert_eq!(customer.last_activity.unwrap(), first_activity_time);
}

#[test]
fn account_status_at_threshold_boundary() {
    let mut customer = create_test_customer();
    let threshold = Duration::days(365);
    customer.last_activity = Some(1_000);
    assert_eq!(customer.get_account_status_at(1_000, threshold), AccountStatus::Active);
    assert_eq!(
        customer.get_account_status_at(1_000 + threshold.micros - 1, threshold),
        AccountStatus::Active
    );
    assert_eq!(
        customer.get_account_status_at(1_000 + threshold.micros, threshold),
        AccountStatus::Inactive
    );
}

#[test]
fn record_activity_at_sets_given_instant() {
    let mut customer = create_test_customer();
    assert!(customer.record_activity_at(ActivityType::Transaction, audit(1), 42).did_execute());
    assert_eq!(customer.last_activity, Some(42));
    // a different activity type is recorded too
    assert!(customer.record_activity_at(ActivityType::AccountView, audit(1), 43).did_execute());
    assert_eq!(customer.last_activity, Some(43));
    assert!(customer.record_activity_at(ActivityType::Transaction, audit(1), 44).was_ignored());
    assert_eq!(customer.last_activity, Some(43));
}

#[test]
fn default_thresholds() {
    assert_eq!(default_inactivity_threshold_days(), 365);
    assert_eq!(default_escheatment_threshold_days(), 3650);
    let config = CustomerConfig::default();
    assert_eq!(config.inactivity_threshold_days, 365);
    assert_eq!(config.escheatment_threshold_days, 3650);
}

#[test]
fn email_and_telegram_updates_are_idempotent() {
    let mut customer = create_test_customer();
    assert!(customer.update_email("new@example.com".to_string(), audit(1)).did_execute());
    assert_eq!(customer.email, "new@example.com");
    assert!(customer.update_email("new@example.com".to_string(), audit(1)).was_ignored());
    assert!(customer.update_telegram_id("tg".to_string(), audit(1)).did_execute());
    assert!(customer.update_telegram_id("tg".to_string(), audit(1)).was_ignored());
    assert_eq!(customer.telegram_id, "tg");
}

#[test]
fn kyc_approval_activates_and_declined_kyc_is_recorded() {
    let mut customer = create_test_customer();
    assert_eq!(customer.status, AccountStatus::Inactive);
    assert!(customer.may_create_loan());
    customer.start_kyc("applicant".to_string(), audit(1));
    assert_eq!(customer.applicant_id.as_deref(), Some("applicant"));
    assert!(customer
        .approve_kyc(KycLevel::Basic, "applicant".to_string(), audit(1))
        .did_execute());
    assert_eq!(customer.level, KycLevel::Basic);
    assert_eq!(customer.status, AccountStatus::Active);
    assert!(customer
        .approve_kyc(KycLevel::Basic, "applicant".to_string(), audit(1))
        .was_ignored());
    assert!(customer.decline_kyc("applicant".to_string(), audit(1)).did_execute());
    assert_eq!(customer.level, KycLevel::NotKyced);
    assert_eq!(customer.status, AccountStatus::Inactive);
}

#[test]
fn rebuilt_customer_keeps_its_history() {
    let mut customer = create_test_customer();
    customer.update_email("x@y.z".to_string(), audit(1));
    let id = customer.id;
    let events = std::mem::take(&mut customer.events);
    let rebuilt = Customer::try_from_events(events).unwrap();
    assert_eq!(rebuilt.email, "x@y.z");
    assert_eq!(rebuilt.id, id);
    assert!(Customer::try_from_events(vec![]).is_err());
}
