//! The checks the credit module makes before it creates a facility or a
//! proposal, before it disburses, and before it completes a facility.

use vstd::prelude::*;

use crate::customer::AccountStatus;
use crate::primitives::UsdCents;

verus! {

/// Why the credit module refuses a request.
#[derive(Clone, Copy, Debug, PartialEq, Eq, Structural)]
pub enum CreditCheckError {
    /// The customer's account is inactive and the check is enabled.
    CustomerNotActive,
    /// The facility has not been activated.
    NotActivatedYet,
    /// The facility's maturity date has passed.
    DisbursalPastMaturityDate,
    /// The disbursal would take the facility below its margin limit.
    BelowMarginLimit,
}

/// Whether the customer may be given credit: refused only when the check is
/// enabled and the account is inactive.
pub fn check_customer_active(customer_active_check_enabled: bool, status: AccountStatus) -> (r:
    Result<(), CreditCheckError>)
    ensures
        r is Err <==> (customer_active_check_enabled && status == AccountStatus::Inactive),
        r is Err ==> r == Err::<(), CreditCheckError>(CreditCheckError::CustomerNotActive),
{
    if customer_active_check_enabled && status.is_inactive() {
        return Err(CreditCheckError::CustomerNotActive);
    }
    Ok(())
}

/// The refusal of a disbursal, if any, given what is known of the customer
/// and the facility, checked in this order: an inactive customer (when the
/// check is enabled), a facility not activated, a disbursal after maturity,
/// a disbursal beyond the margin limit.
pub open spec fn disbursal_refusal(
    customer_active_check_enabled: bool,
    customer_status: AccountStatus,
    facility_activated: bool,
    before_maturity: bool,
    disbursal_allowed: bool,
) -> Option<CreditCheckError> {
    if customer_active_check_enabled && customer_status == AccountStatus::Inactive {
        Some(CreditCheckError::CustomerNotActive)
    } else if !facility_activated {
        Some(CreditCheckError::NotActivatedYet)
    } else if !before_maturity {
        Some(CreditCheckError::DisbursalPastMaturityDate)
    } else if !disbursal_allowed {
        Some(CreditCheckError::BelowMarginLimit)
    } else {
        None
    }
}

/// Whether a disbursal may go ahead.
pub fn check_disbursal(
    customer_active_check_enabled: bool,
    customer_status: AccountStatus,
    facility_activated: bool,
    before_maturity: bool,
    disbursal_allowed: bool,
) -> (r: Result<(), CreditCheckError>)
    ensures
        r is Err <==> disbursal_refusal(
            customer_active_check_enabled,
            customer_status,
            facility_activated,
            before_maturity,
            disbursal_allowed,
        ) is Some,
        r matches Err(e) ==> Some(e) == disbursal_refusal(
            customer_active_check_enabled,
            customer_status,
            facility_activated,
            before_maturity,
            disbursal_allowed,
        ),
{
    if let Err(e) = check_customer_active(customer_active_check_enabled, customer_status) {
        return Err(e);
    }
    if !facility_activated {
        return Err(CreditCheckError::NotActivatedYet);
    }
    if !before_maturity {
        return Err(CreditCheckError::DisbursalPastMaturityDate);
    }
    if !disbursal_allowed {
        return Err(CreditCheckError::BelowMarginLimit);
    }
    Ok(())
}

/// A facility can be completed once nothing is outstanding.
pub fn can_be_completed(outstanding: UsdCents) -> (b: bool)
    ensures
        b == (outstanding.cents == 0),
{
    outstanding.is_zero()
}

} // verus!
