use lana_core::deposit::{Deposit, DepositStatus, NewDeposit, NewDepositBuilderError};
use lana_core::primitives::{AuditEntryId, AuditInfo, EntityId, UsdCents};

fn uuid_text_of(id: EntityId) -> String {
    uuid::Uuid::from_u128(id.bits).hyphenated().to_string()
}

fn dummy_audit_info() -> AuditInfo {
    AuditInfo { audit_entry_id: AuditEntryId::new(1), sub: "sub".to_string() }
}

#[test]
fn errors_when_zero_amount_deposit_amount_is_passed() {
    let deposit = NewDeposit::builder()
        .id(EntityId::new())
        .ledger_transaction_id(EntityId::new())
        .deposit_account_id(EntityId::new())
        .amount(UsdCents::zero())
        .reference(None)
        .audit_info(dummy_audit_info())
        .build();

    assert!(matches!(deposit, Err(NewDepositBuilderError::ValidationError(_))));
}

#[test]
fn entity_errors_when_amount_is_not_provided() {
    let deposit = NewDeposit::builder()
        .id(EntityId::new())
        .ledger_transaction_id(EntityId::new())
        .deposit_account_id(EntityId::new())
        .reference(None)
        .audit_info(dummy_audit_info())
        .build();

    assert!(matches!(deposit, Err(NewDepositBuilderError::UninitializedField(_))));
}

#[test]
fn entity_passes_when_all_inputs_provided() {
    let deposit = NewDeposit::builder()
        .id(EntityId::new())
        .ledger_transaction_id(EntityId::new())
        .deposit_account_id(EntityId::new())
        .amount(UsdCents::one())
        .reference(None)
        .audit_info(dummy_audit_info())
        .build();

    assert!(deposit.is_ok());
}

#[test]
fn revert_deposit() {
    let new_deposit = NewDeposit::builder()
        .id(EntityId::new())
        .ledger_transaction_id(EntityId::new())
        .deposit_account_id(EntityId::new())
        .amount(UsdCents::one())
        .reference(None)
        .audit_info(dummy_audit_info())
        .build()
        .unwrap();

    let mut deposit = Deposit::try_from_events(new_deposit.into_events()).unwrap();
    assert_eq!(deposit.status(), DepositStatus::Confirmed);

    let res = deposit.revert(dummy_audit_info());
    assert!(res.did_execute());

    let res = deposit.revert(dummy_audit_info());
    assert!(res.was_ignored());
}

#[test]
fn reverted_deposit_reports_reversal_data() {
    let id = EntityId::new();
    let account = EntityId::new();
    let new_deposit = NewDeposit::builder()
        .id(id)
        .ledger_transaction_id(EntityId::new())
        .deposit_account_id(account)
        .amount(UsdCents::from(250))
        .reference(Some("ref-1".to_string()))
        .audit_info(dummy_audit_info())
        .build()
        .unwrap();
    assert_eq!(new_deposit.reference(), "ref-1");
    let mut deposit = Deposit::try_from_events(new_deposit.into_events()).unwrap();
    let data = deposit.revert(dummy_audit_info()).unwrap();
    assert_eq!(data.amount, UsdCents::from(250));
    assert_eq!(data.credit_account_id, account);
    assert_eq!(data.external_id, format!("lana:deposit:{}:reverted", uuid_text_of(id)));
    assert_eq!(deposit.status(), DepositStatus::Reverted);
}

#[test]
fn empty_reference_falls_back_to_id() {
    let id = EntityId::new();
    let new_deposit = NewDeposit::builder()
        .id(id)
        .ledger_transaction_id(EntityId::new())
        .deposit_account_id(EntityId::new())
        .amount(UsdCents::one())
        .reference(Some(String::new()))
        .audit_info(dummy_audit_info())
        .build()
        .unwrap();
    assert_eq!(new_deposit.reference(), uuid_text_of(id));
}

#[test]
fn zero_amount_deposit_names_the_rule_it_breaks() {
    let deposit = NewDeposit::builder()
        .id(EntityId::new())
        .ledger_transaction_id(EntityId::new())
        .deposit_account_id(EntityId::new())
        .amount(UsdCents::zero())
        .build();

    match deposit {
        Err(NewDepositBuilderError::ValidationError(m)) => {
            assert_eq!(m, "Deposit amount cannot be zero")
        }
        _ => panic!("expected a validation error"),
    }
}
