use lana_core::credit::{can_be_completed, check_customer_active, check_disbursal, CreditCheckError};
use lana_core::customer::AccountStatus;
use lana_core::primitives::UsdCents;

#[test]
fn inactive_customer_is_refused_only_when_checked() {
    assert_eq!(
        check_customer_active(true, AccountStatus::Inactive),
        Err(CreditCheckError::CustomerNotActive)
    );
    assert_eq!(check_customer_active(false, AccountStatus::Inactive), Ok(()));
    assert_eq!(check_customer_active(true, AccountStatus::Active), Ok(()));
}

#[test]
fn disbursal_checks_come_in_order() {
    assert_eq!(check_disbursal(true, AccountStatus::Inactive, false, false, false), Err(CreditCheckError::CustomerNotActive));
    assert_eq!(check_disbursal(false, AccountStatus::Inactive, false, false, false), Err(CreditCheckError::NotActivatedYet));
    assert_eq!(check_disbursal(true, AccountStatus::Active, true, false, false), Err(CreditCheckError::DisbursalPastMaturityDate));
    assert_eq!(check_disbursal(true, AccountStatus::Active, true, true, false), Err(CreditCheckError::BelowMarginLimit));
    assert_eq!(check_disbursal(true, AccountStatus::Active, true, true, true), Ok(()));
}

#[test]
fn completion_needs_nothing_outstanding() {
    assert!(can_be_completed(UsdCents::zero()));
    assert!(!can_be_completed(UsdCents::from(1)));
}
