use lana_core::primitives::{AuditEntryId, AuditInfo, EntityId, UsdCents};
use lana_core::withdrawal::{
    NewWithdrawal, NewWithdrawalBuilderError, Withdrawal, WithdrawalError, WithdrawalStatus,
};

fn dummy_audit_info() -> AuditInfo {
    AuditInfo { audit_entry_id: AuditEntryId::new(1), sub: "sub".to_string() }
}

fn new_withdrawal() -> NewWithdrawal {
    NewWithdrawal::builder()
        .id(EntityId::new())
        .deposit_account_id(EntityId::new())
        .amount(UsdCents::one())
        .reference(None)
        .approval_process_id(EntityId::new())
        .audit_info(dummy_audit_info())
        .build()
        .unwrap()
}

#[test]
fn errors_when_zero_amount_withdrawal_amount_is_passed() {
    let withdrawal = NewWithdrawal::builder()
        .id(EntityId::new())
        .deposit_account_id(EntityId::new())
        .amount(UsdCents::zero())
        .reference(None)
        .approval_process_id(EntityId::new())
        .audit_info(dummy_audit_info())
        .build();

    assert!(matches!(withdrawal, Err(NewWithdrawalBuilderError::ValidationError(_))));
}

#[test]
fn errors_when_amount_is_not_provided() {
    let withdrawal = NewWithdrawal::builder()
        .id(EntityId::new())
        .deposit_account_id(EntityId::new())
        .reference(None)
        .approval_process_id(EntityId::new())
        .audit_info(dummy_audit_info())
        .build();

    assert!(matches!(withdrawal, Err(NewWithdrawalBuilderError::UninitializedField(_))));
}

#[test]
fn passes_when_all_inputs_provided() {
    let withdrawal = NewWithdrawal::builder()
        .id(EntityId::new())
        .deposit_account_id(EntityId::new())
        .amount(UsdCents::one())
        .reference(None)
        .approval_process_id(EntityId::new())
        .audit_info(dummy_audit_info())
        .build();

    assert!(withdrawal.is_ok());
}

fn create_confirmed_withdrawal() -> Withdrawal {
    let mut withdrawal = Withdrawal::try_from_events(new_withdrawal().into_events()).unwrap();
    withdrawal.approval_process_concluded(true, dummy_audit_info()).unwrap();
    withdrawal.confirm(dummy_audit_info()).unwrap();
    withdrawal
}

#[test]
fn can_revert_confirmed_withdrawal() {
    let mut withdrawal = create_confirmed_withdrawal();

    let result = withdrawal.revert(dummy_audit_info());

    assert!(result.is_ok());
    assert!(withdrawal.is_reverted());
    assert_eq!(withdrawal.status(), WithdrawalStatus::Reverted);
}

#[test]
fn cancelled_withdrawal_is_ignored_on_revert() {
    let mut withdrawal = Withdrawal::try_from_events(new_withdrawal().into_events()).unwrap();
    withdrawal.approval_process_concluded(true, dummy_audit_info()).unwrap();
    withdrawal.cancel(dummy_audit_info()).unwrap();

    let result = withdrawal.revert(dummy_audit_info()).unwrap();
    assert!(result.was_ignored());
}

#[test]
fn reverted_withdrawal_is_ignored_on_revert() {
    let mut withdrawal = create_confirmed_withdrawal();

    let _ = withdrawal.revert(dummy_audit_info()).unwrap();
    let result = withdrawal.revert(dummy_audit_info()).unwrap();
    assert!(result.was_ignored());
}

#[test]
fn cannot_revert_unconfirmed_withdrawal() {
    let mut withdrawal = Withdrawal::try_from_events(new_withdrawal().into_events()).unwrap();
    withdrawal.approval_process_concluded(true, dummy_audit_info()).unwrap();

    let result = withdrawal.revert(dummy_audit_info());

    assert!(matches!(result, Err(WithdrawalError::NotConfirmed(_))));
}

#[test]
fn confirm_requires_approval_and_happens_once() {
    let mut withdrawal = Withdrawal::try_from_events(new_withdrawal().into_events()).unwrap();
    let id = withdrawal.id;
    assert_eq!(withdrawal.status(), WithdrawalStatus::PendingApproval);
    assert_eq!(withdrawal.confirm(dummy_audit_info()).err(), Some(WithdrawalError::NotApproved(id)));
    withdrawal.approval_process_concluded(true, dummy_audit_info()).unwrap();
    assert!(withdrawal.approval_process_concluded(false, dummy_audit_info()).was_ignored());
    assert_eq!(withdrawal.is_approved_or_denied(), Some(true));
    assert_eq!(withdrawal.status(), WithdrawalStatus::PendingConfirmation);
    assert!(withdrawal.confirm(dummy_audit_info()).is_ok());
    assert_eq!(withdrawal.confirm(dummy_audit_info()).err(), Some(WithdrawalError::AlreadyConfirmed(id)));
    assert_eq!(withdrawal.cancel(dummy_audit_info()).err(), Some(WithdrawalError::AlreadyConfirmed(id)));
}

#[test]
fn denied_withdrawal_is_not_confirmed_but_can_be_cancelled() {
    let mut withdrawal = Withdrawal::try_from_events(new_withdrawal().into_events()).unwrap();
    let id = withdrawal.id;
    withdrawal.approval_process_concluded(false, dummy_audit_info()).unwrap();
    assert_eq!(withdrawal.status(), WithdrawalStatus::Denied);
    assert_eq!(withdrawal.confirm(dummy_audit_info()).err(), Some(WithdrawalError::NotApproved(id)));
    let tx = withdrawal.cancel(dummy_audit_info()).unwrap();
    assert_eq!(withdrawal.cancelled_tx_id, Some(tx));
    assert!(withdrawal.is_cancelled());
    assert_eq!(withdrawal.cancel(dummy_audit_info()).err(), Some(WithdrawalError::AlreadyCancelled(id)));
}

#[test]
fn withdrawal_reference_defaults_to_its_id() {
    let new = new_withdrawal();
    let expected = uuid::Uuid::from_u128(new.id.bits).hyphenated().to_string();
    assert_eq!(new.reference(), expected);
}

#[test]
fn zero_amount_withdrawal_names_the_rule_it_breaks() {
    let withdrawal = NewWithdrawal::builder()
        .id(EntityId::new())
        .deposit_account_id(EntityId::new())
        .amount(UsdCents::zero())
        .build();

    match withdrawal {
        Err(NewWithdrawalBuilderError::ValidationError(m)) => {
            assert_eq!(m, "Withdrawal amount cannot be zero")
        }
        _ => panic!("expected a validation error"),
    }
}
