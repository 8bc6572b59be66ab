use lana_core::deposit_account::{
    DepositAccount, DepositAccountEvent, DepositAccountStatus, NewDepositAccount,
};
use lana_core::primitives::{AuditEntryId, AuditInfo, EntityId};
use lana_core::public_id::PublicId;

fn dummy_audit_info() -> AuditInfo {
    AuditInfo { audit_entry_id: AuditEntryId::new(1), sub: "sub".to_string() }
}

fn initial_events() -> Vec<DepositAccountEvent> {
    vec![DepositAccountEvent::Initialized {
        id: EntityId::new(),
        account_holder_id: EntityId::new(),
        ledger_account_id: EntityId::new(),
        frozen_deposit_account_id: EntityId::new(),
        status: DepositAccountStatus::Inactive,
        public_id: PublicId::new("1".to_string()),
        audit_info: dummy_audit_info(),
    }]
}

#[test]
fn update_status_idempotency() {
    let mut account = DepositAccount::try_from_events(initial_events()).unwrap();

    assert!(account.update_status(DepositAccountStatus::Active, dummy_audit_info()).did_execute());
    assert!(account.update_status(DepositAccountStatus::Active, dummy_audit_info()).was_ignored());
    assert!(account.update_status(DepositAccountStatus::Frozen, dummy_audit_info()).did_execute());
    assert!(account.update_status(DepositAccountStatus::Active, dummy_audit_info()).did_execute());
}

#[test]
fn freeze_is_idempotent_and_sets_frozen() {
    let mut account = DepositAccount::try_from_events(initial_events()).unwrap();
    assert!(account.freeze(dummy_audit_info()).did_execute());
    assert_eq!(account.status, DepositAccountStatus::Frozen);
    assert!(account.freeze(dummy_audit_info()).was_ignored());
    assert_eq!(account.events().len(), 2);
}

#[test]
fn account_without_initialization_cannot_be_rebuilt() {
    assert!(DepositAccount::try_from_events(vec![]).is_err());
}

#[test]
fn new_account_builder_requires_fields() {
    let built = NewDepositAccount::builder()
        .id(EntityId::new())
        .account_holder_id(EntityId::new())
        .ledger_account_id(EntityId::new())
        .frozen_deposit_account_id(EntityId::new())
        .active(true)
        .public_id(PublicId::new("7".to_string()))
        .audit_info(dummy_audit_info())
        .build();
    let new_account = built.unwrap();
    let events = new_account.into_events();
    let account = DepositAccount::try_from_events(events).unwrap();
    assert_eq!(account.status, DepositAccountStatus::Active);

    let missing = NewDepositAccount::builder().id(EntityId::new()).build();
    assert!(missing.is_err());
}
