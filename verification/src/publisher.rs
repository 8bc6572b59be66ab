//! What the credit module announces to other modules when a facility or an
//! obligation records new events: each new event that other modules care
//! about becomes one announcement, in the order the events were recorded.

use vstd::prelude::*;

use crate::credit_proposal::{PriceOfOneBTC, TermValues};
use crate::primitives::{CreditFacilityId, LedgerTxId, ObligationId, Satoshis, Timestamp, UsdCents};
use crate::repayment_plan::{day_of, day_of_instant, EffectiveDate, ObligationType};

verus! {

/// What the announcements read of an obligation: its identity, its type and
/// amount, and the days on which it falls due, overdue and into default.
#[derive(Clone, Copy, Debug, PartialEq, Eq, Structural)]
pub struct ObligationSummary {
    pub id: ObligationId,
    pub obligation_type: ObligationType,
    pub credit_facility_id: CreditFacilityId,
    pub initial_amount: UsdCents,
    pub due: EffectiveDate,
    pub overdue: Option<EffectiveDate>,
    pub defaulted: Option<EffectiveDate>,
}

/// The events of an obligation, as far as the announcements read them.
#[derive(Clone, Copy, Debug, PartialEq, Eq, Structural)]
pub enum ObligationEvent {
    Initialized { effective: EffectiveDate },
    DueRecorded { due_amount: UsdCents },
    OverdueRecorded { overdue_amount: UsdCents },
    DefaultedRecorded { defaulted_amount: UsdCents },
    Completed,
    /// Any other obligation event.
    Other,
}

/// An obligation event with the instant it was recorded.
#[derive(Clone, Copy, Debug, PartialEq, Eq, Structural)]
pub struct ObligationEventRecord {
    pub event: ObligationEvent,
    pub recorded_at: Timestamp,
}

/// How well a facility's collateral covers what is owed on it.
#[derive(Clone, Copy, Debug, PartialEq, Eq, Structural)]
pub enum CollateralizationState {
    FullyCollateralized,
    UnderMarginCallThreshold,
    UnderLiquidationThreshold,
    NoCollateral,
    NoExposure,
}

/// What the announcements read of a credit facility: its id, its amount and
/// when it was created.
#[derive(Clone, Copy, Debug, PartialEq, Eq, Structural)]
pub struct FacilitySummary {
    pub id: CreditFacilityId,
    pub amount: UsdCents,
    pub created_at: Timestamp,
}

/// The events of a credit facility, as far as the announcements read them.
#[derive(Clone, Copy, Debug)]
pub enum FacilityEvent {
    Initialized { amount: UsdCents, terms: TermValues },
    ApprovalProcessConcluded { approved: bool },
    Activated { activated_at: Timestamp, ledger_tx_id: LedgerTxId },
    Completed,
    /// The collateralization state changed; `outstanding` is the total owed
    /// on the facility at the time.
    CollateralizationStateChanged {
        state: CollateralizationState,
        collateral: Satoshis,
        outstanding: UsdCents,
        price: PriceOfOneBTC,
    },
    /// Any other facility event.
    Other,
}

/// A facility event with the instant it was recorded.
#[derive(Clone, Copy, Debug)]
pub struct FacilityEventRecord {
    pub event: FacilityEvent,
    pub recorded_at: Timestamp,
}

/// What the credit module announces about facilities and obligations.
#[derive(Clone, Copy, Debug, PartialEq)]
pub enum CoreCreditEvent {
    FacilityCreated {
        id: CreditFacilityId,
        terms: TermValues,
        amount: UsdCents,
        created_at: Timestamp,
    },
    FacilityApproved { id: CreditFacilityId },
    FacilityActivated {
        id: CreditFacilityId,
        activation_tx_id: LedgerTxId,
        activated_at: Timestamp,
        amount: UsdCents,
    },
    FacilityCompleted { id: CreditFacilityId, completed_at: Timestamp },
    FacilityCollateralizationChanged {
        id: CreditFacilityId,
        state: CollateralizationState,
        recorded_at: Timestamp,
        effective: EffectiveDate,
        collateral: Satoshis,
        outstanding: UsdCents,
        price: PriceOfOneBTC,
    },
    ObligationCreated {
        id: ObligationId,
        obligation_type: ObligationType,
        credit_facility_id: CreditFacilityId,
        amount: UsdCents,
        due_at: EffectiveDate,
        overdue_at: Option<EffectiveDate>,
        defaulted_at: Option<EffectiveDate>,
        recorded_at: Timestamp,
        effective: EffectiveDate,
    },
    ObligationDue {
        id: ObligationId,
        credit_facility_id: CreditFacilityId,
        obligation_type: ObligationType,
        amount: UsdCents,
    },
    ObligationOverdue { id: ObligationId, credit_facility_id: CreditFacilityId, amount: UsdCents },
    ObligationDefaulted { id: ObligationId, credit_facility_id: CreditFacilityId, amount: UsdCents },
    ObligationCompleted { id: ObligationId, credit_facility_id: CreditFacilityId },
}

/// The announcement for one new event of the obligation, if it has one.
pub open spec fn obligation_announcement(o: ObligationSummary, r: ObligationEventRecord) -> Option<
    CoreCreditEvent,
> {
    match r.event {
        ObligationEvent::Initialized { effective } => Some(
            CoreCreditEvent::ObligationCreated {
                id: o.id,
                obligation_type: o.obligation_type,
                credit_facility_id: o.credit_facility_id,
                amount: o.initial_amount,
                due_at: o.due,
                overdue_at: o.overdue,
                defaulted_at: o.defaulted,
                recorded_at: r.recorded_at,
                effective,
            },
        ),
        ObligationEvent::DueRecorded { due_amount } => Some(
            CoreCreditEvent::ObligationDue {
                id: o.id,
                credit_facility_id: o.credit_facility_id,
                obligation_type: o.obligation_type,
                amount: due_amount,
            },
        ),
        ObligationEvent::OverdueRecorded { overdue_amount } => Some(
            CoreCreditEvent::ObligationOverdue {
                id: o.id,
                credit_facility_id: o.credit_facility_id,
                amount: overdue_amount,
            },
        ),
        ObligationEvent::DefaultedRecorded { defaulted_amount } => Some(
            CoreCreditEvent::ObligationDefaulted {
                id: o.id,
                credit_facility_id: o.credit_facility_id,
                amount: defaulted_amount,
            },
        ),
        ObligationEvent::Completed => Some(
            CoreCreditEvent::ObligationCompleted { id: o.id, credit_facility_id: o.credit_facility_id },
        ),
        ObligationEvent::Other => None,
    }
}

/// The announcements for the new events, in their order; events without an
/// announcement are skipped.
pub open spec fn obligation_announcements(o: ObligationSummary, events: Seq<ObligationEventRecord>)
    -> Seq<CoreCreditEvent>
    decreases events.len(),
{
    if events.len() == 0 {
        Seq::empty()
    } else {
        let earlier = obligation_announcements(o, events.drop_last());
        match obligation_announcement(o, events.last()) {
            Some(e) => earlier.push(e),
            None => earlier,
        }
    }
}

/// The announcement for one new event of the obligation, if it has one.
fn announce_obligation_event(o: &ObligationSummary, r: &ObligationEventRecord) -> (a: Option<
    CoreCreditEvent,
>)
    ensures
        a == obligation_announcement(*o, *r),
{
    match r.event {
        ObligationEvent::Initialized { effective } => Some(
            CoreCreditEvent::ObligationCreated {
                id: o.id,
                obligation_type: o.obligation_type,
                credit_facility_id: o.credit_facility_id,
                amount: o.initial_amount,
                due_at: o.due,
                overdue_at: o.overdue,
                defaulted_at: o.defaulted,
                recorded_at: r.recorded_at,
                effective,
            },
        ),
        ObligationEvent::DueRecorded { due_amount } => Some(
            CoreCreditEvent::ObligationDue {
                id: o.id,
                credit_facility_id: o.credit_facility_id,
                obligation_type: o.obligation_type,
                amount: due_amount,
            },
        ),
        ObligationEvent::OverdueRecorded { overdue_amount } => Some(
            CoreCreditEvent::ObligationOverdue {
                id: o.id,
                credit_facility_id: o.credit_facility_id,
                amount: overdue_amount,
            },
        ),
        ObligationEvent::DefaultedRecorded { defaulted_amount } => Some(
            CoreCreditEvent::ObligationDefaulted {
                id: o.id,
                credit_facility_id: o.credit_facility_id,
                amount: defaulted_amount,
            },
        ),
        ObligationEvent::Completed => Some(
            CoreCreditEvent::ObligationCompleted { id: o.id, credit_facility_id: o.credit_facility_id },
        ),
        ObligationEvent::Other => None,
    }
}

/// The announcements that an obligation's newly recorded events give, in
/// the order of the events.
pub fn obligation_events_to_publish(o: &ObligationSummary, new_events: &Vec<ObligationEventRecord>) -> (out:
    Vec<CoreCreditEvent>)
    ensures
        out@ == obligation_announcements(*o, new_events@),
{
    let mut out: Vec<CoreCreditEvent> = Vec::new();
    let n = new_events.len();
    let mut i: usize = 0;
    while i < n
        invariant
            n == new_events@.len(),
            i <= n,
            out@ == obligation_announcements(*o, new_events@.take(i as int)),
        decreases n - i,
    {
        proof {
            assert(new_events@.take(i + 1).drop_last() =~= new_events@.take(i as int));
            assert(new_events@.take(i + 1).last() == new_events@[i as int]);
        }
        if let Some(e) = announce_obligation_event(o, &new_events[i]) {
            out.push(e);
        }
        i += 1;
    }
    assert(new_events@.take(n as int) =~= new_events@);
    out
}

/// The announcement for one new event of the facility, if it has one: a
/// concluded approval is announced only when it approved the facility.
pub open spec fn facility_announcement(f: FacilitySummary, r: FacilityEventRecord) -> Option<
    CoreCreditEvent,
> {
    match r.event {
        FacilityEvent::Initialized { amount, terms } => Some(
            CoreCreditEvent::FacilityCreated { id: f.id, terms, amount, created_at: f.created_at },
        ),
        FacilityEvent::ApprovalProcessConcluded { approved } => if approved {
            Some(CoreCreditEvent::FacilityApproved { id: f.id })
        } else {
            None
        },
        FacilityEvent::Activated { activated_at, ledger_tx_id } => Some(
            CoreCreditEvent::FacilityActivated {
                id: f.id,
                activation_tx_id: ledger_tx_id,
                activated_at,
                amount: f.amount,
            },
        ),
        FacilityEvent::Completed => Some(
            CoreCreditEvent::FacilityCompleted { id: f.id, completed_at: r.recorded_at },
        ),
        FacilityEvent::CollateralizationStateChanged { state, collateral, outstanding, price } => Some(
            CoreCreditEvent::FacilityCollateralizationChanged {
                id: f.id,
                state,
                recorded_at: r.recorded_at,
                effective: day_of(r.recorded_at),
                collateral,
                outstanding,
                price,
            },
        ),
        FacilityEvent::Other => None,
    }
}

/// The announcements for the facility's new events, in their order; events
/// without an announcement are skipped.
pub open spec fn facility_announcements(f: FacilitySummary, events: Seq<FacilityEventRecord>) -> Seq<
    CoreCreditEvent,
>
    decreases events.len(),
{
    if events.len() == 0 {
        Seq::empty()
    } else {
        let earlier = facility_announcements(f, events.drop_last());
        match facility_announcement(f, events.last()) {
            Some(e) => earlier.push(e),
            None => earlier,
        }
    }
}

/// The announcement for one new event of the facility, if it has one.
fn announce_facility_event(f: &FacilitySummary, r: &FacilityEventRecord) -> (a: Option<
    CoreCreditEvent,
>)
    ensures
        a == facility_announcement(*f, *r),
{
    match r.event {
        FacilityEvent::Initialized { amount, terms } => Some(
            CoreCreditEvent::FacilityCreated { id: f.id, terms, amount, created_at: f.created_at },
        ),
        FacilityEvent::ApprovalProcessConcluded { approved } => if approved {
            Some(CoreCreditEvent::FacilityApproved { id: f.id })
        } else {
            None
        },
        FacilityEvent::Activated { activated_at, ledger_tx_id } => Some(
            CoreCreditEvent::FacilityActivated {
                id: f.id,
                activation_tx_id: ledger_tx_id,
                activated_at,
                amount: f.amount,
            },
        ),
        FacilityEvent::Completed => Some(
            CoreCreditEvent::FacilityCompleted { id: f.id, completed_at: r.recorded_at },
        ),
        FacilityEvent::CollateralizationStateChanged { state, collateral, outstanding, price } => Some(
            CoreCreditEvent::FacilityCollateralizationChanged {
                id: f.id,
                state,
                recorded_at: r.recorded_at,
                effective: day_of_instant(r.recorded_at),
                collateral,
                outstanding,
                price,
            },
        ),
        FacilityEvent::Other => None,
    }
}

/// The announcements that a facility's newly recorded events give, in the
/// order of the events.
pub fn facility_events_to_publish(f: &FacilitySummary, new_events: &Vec<FacilityEventRecord>) -> (out:
    Vec<CoreCreditEvent>)
    ensures
        out@ == facility_announcements(*f, new_events@),
{
    let mut out: Vec<CoreCreditEvent> = Vec::new();
    let n = new_events.len();
    let mut i: usize = 0;
    while i < n
        invariant
            n == new_events@.len(),
            i <= n,
            out@ == facility_announcements(*f, new_events@.take(i as int)),
        decreases n - i,
    {
        proof {
            assert(new_events@.take(i + 1).drop_last() =~= new_events@.take(i as int));
            assert(new_events@.take(i + 1).last() == new_events@[i as int]);
        }
        if let Some(e) = announce_facility_event(f, &new_events[i]) {
            out.push(e);
        }
        i += 1;
    }
    assert(new_events@.take(n as int) =~= new_events@);
    out
}

} // verus!
