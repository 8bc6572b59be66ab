use lana_core::primitives::{EntityId, UsdCents};
use lana_core::repayment_plan::{
    day_of_instant, disbursed_outstanding, drop_accrued, planned_interest_entries,
    sort_into_plan_order,
    CreditFacilityRepaymentPlan, CreditFacilityRepaymentPlanEntry, EffectiveDate, InterestPeriod,
    ObligationStatus, ObligationType, RepaymentPlanEvent, RepaymentStatus, RepaymentType,
};

fn upcoming(repayment_type: RepaymentType, amount: u64, due: i64) -> CreditFacilityRepaymentPlanEntry {
    CreditFacilityRepaymentPlanEntry {
        repayment_type,
        obligation_id: None,
        status: RepaymentStatus::Upcoming,
        initial: UsdCents::from(amount),
        outstanding: UsdCents::from(amount),
        due_at: EffectiveDate { days: due },
        overdue_at: None,
        defaulted_at: None,
        recorded_at: 0,
        effective: EffectiveDate { days: 0 },
    }
}

fn obligation_created(id: EntityId, obligation_type: ObligationType, amount: u64, due: i64) -> RepaymentPlanEvent {
    RepaymentPlanEvent::ObligationCreated {
        id,
        obligation_type,
        amount: UsdCents::from(amount),
        due_at: EffectiveDate { days: due },
        overdue_at: None,
        defaulted_at: None,
        recorded_at: 5,
        effective: EffectiveDate { days: due - 1 },
    }
}

#[test]
fn plan_order_is_due_date_then_interest_first_and_stable() {
    let a = upcoming(RepaymentType::Disbursal, 1, 30);
    let b = upcoming(RepaymentType::Interest, 2, 30);
    let c = upcoming(RepaymentType::Interest, 3, 10);
    let d = upcoming(RepaymentType::Disbursal, 4, 30);
    let sorted = sort_into_plan_order(vec![a, b, c, d]);
    let amounts: Vec<u64> = sorted.iter().map(|e| e.initial.cents).collect();
    assert_eq!(amounts, vec![3, 2, 1, 4]);
    // agrees with a stable sort by the same key
    let mut expected = vec![a, b, c, d];
    expected.sort_by_key(|e| (e.due_at.days, if e.repayment_type == RepaymentType::Interest { 0 } else { 1 }));
    assert_eq!(sorted, expected);
}

#[test]
fn obligation_events_update_the_recorded_obligations() {
    let mut plan = CreditFacilityRepaymentPlan::new();
    assert!(plan.apply_obligation_event(0, &RepaymentPlanEvent::FacilityCreated { amount: UsdCents::from(1_000) }).is_some());
    assert_eq!(plan.facility_amount, UsdCents::from(1_000));
    assert!(plan.apply_obligation_event(0, &RepaymentPlanEvent::FacilityActivated { activated_at: 77 }).is_some());
    assert_eq!(plan.activated_at, Some(77));

    let disbursal = EntityId::new();
    let obligations = plan
        .apply_obligation_event(0, &obligation_created(disbursal, ObligationType::Disbursal, 1_000, 90))
        .unwrap();
    assert_eq!(obligations.len(), 1);
    assert_eq!(obligations[0].status, RepaymentStatus::NotYetDue);
    assert_eq!(obligations[0].obligation_id, Some(disbursal));
    plan.set_entries(obligations, vec![], vec![upcoming(RepaymentType::Interest, 10, 30)]);
    assert_eq!(plan.entries.len(), 2);
    assert_eq!(plan.entries[0].repayment_type, RepaymentType::Interest);

    let interest = EntityId::new();
    let obligations = plan
        .apply_obligation_event(0, &obligation_created(interest, ObligationType::Interest, 10, 30))
        .unwrap();
    assert_eq!(plan.last_interest_accrual_on, Some(EffectiveDate { days: 29 }));
    assert_eq!(obligations.len(), 2);
    plan.set_entries(obligations, vec![], vec![]);

    let after_payment = plan
        .apply_obligation_event(0, &RepaymentPlanEvent::FacilityRepaymentRecorded {
            obligation_id: interest,
            amount: UsdCents::from(4),
        })
        .unwrap();
    let paid = after_payment.iter().find(|e| e.obligation_id == Some(interest)).unwrap();
    assert_eq!(paid.outstanding, UsdCents::from(6));
    assert_eq!(paid.initial, UsdCents::from(10));
    plan.set_entries(after_payment, vec![], vec![]);

    let completed = plan
        .apply_obligation_event(0, &RepaymentPlanEvent::ObligationCompleted { id: interest })
        .unwrap();
    let done = completed.iter().find(|e| e.obligation_id == Some(interest)).unwrap();
    assert_eq!(done.status, RepaymentStatus::Paid);

    let overdue = plan
        .apply_obligation_event(0, &RepaymentPlanEvent::ObligationOverdue { id: disbursal })
        .unwrap();
    let late = overdue.iter().find(|e| e.obligation_id == Some(disbursal)).unwrap();
    assert_eq!(late.status, RepaymentStatus::Overdue);
}

#[test]
fn events_the_plan_ignores() {
    let mut plan = CreditFacilityRepaymentPlan::new();
    assert!(plan.apply_obligation_event(0, &RepaymentPlanEvent::Other).is_none());
    assert!(plan
        .apply_obligation_event(0, &RepaymentPlanEvent::ObligationDue { id: EntityId::new() })
        .is_none());
    assert!(plan
        .apply_obligation_event(0, &RepaymentPlanEvent::AccrualPosted {
            amount: UsdCents::from(3),
            due_at: EffectiveDate { days: 1 },
            effective: EffectiveDate { days: 1 },
            recorded_at: 1,
        })
        .is_none());
    assert_eq!(plan.last_interest_accrual_on, None);
    let zero = plan
        .apply_obligation_event(0, &RepaymentPlanEvent::AccrualPosted {
            amount: UsdCents::zero(),
            due_at: EffectiveDate { days: 3 },
            effective: EffectiveDate { days: 2 },
            recorded_at: 1,
        })
        .unwrap();
    assert_eq!(zero.len(), 1);
    assert_eq!(zero[0].status, RepaymentStatus::Paid);
    assert_eq!(zero[0].repayment_type, RepaymentType::Interest);
    assert_eq!(plan.last_interest_accrual_on, Some(EffectiveDate { days: 2 }));
}

#[test]
fn planned_disbursals_stand_in_for_missing_obligations() {
    let mut plan = CreditFacilityRepaymentPlan::new();
    plan.set_entries(
        vec![],
        vec![upcoming(RepaymentType::Disbursal, 50, 90), upcoming(RepaymentType::Disbursal, 1_000, 90)],
        vec![upcoming(RepaymentType::Interest, 10, 90), upcoming(RepaymentType::Interest, 9, 30)],
    );
    let amounts: Vec<u64> = plan.entries.iter().map(|e| e.initial.cents).collect();
    assert_eq!(amounts, vec![9, 10, 50, 1_000]);
    assert!(plan.existing_obligations().is_empty());
    assert_eq!(disbursed_outstanding(&plan.entries), UsdCents::from(1_050));
    assert!(plan.entries[0].precedes(&plan.entries[1]));
    assert!(!plan.entries[2].precedes(&plan.entries[3]));
    assert!(!plan.entries[0].is_not_upcoming());
}

#[test]
fn status_and_type_conversions() {
    assert_eq!(RepaymentStatus::from(ObligationStatus::Due), RepaymentStatus::Due);
    assert_eq!(RepaymentStatus::from(ObligationStatus::Paid), RepaymentStatus::Paid);
    assert_eq!(RepaymentType::from(ObligationType::Interest), RepaymentType::Interest);
    assert_eq!(RepaymentType::from(ObligationType::Disbursal), RepaymentType::Disbursal);
}


// A facility of 1,000,000.00 opened on 2021-01-01 at noon for three months,
// with interest accrued to the end of each month: the periods end on
// 2021-01-31, 2021-02-28, 2021-03-31 and, cut at maturity, 2021-04-01.
const MICROS_PER_DAY: i64 = 86_400_000_000;
const START_DAY: i64 = 18_628;

fn day(offset: i64) -> EffectiveDate {
    EffectiveDate { days: START_DAY + offset }
}

fn default_start_date() -> i64 {
    START_DAY * MICROS_PER_DAY + 12 * 3_600_000_000
}

fn default_start_date_with_days(days: i64) -> i64 {
    default_start_date() + days * MICROS_PER_DAY
}

fn default_facility_amount() -> UsdCents {
    UsdCents::from(1_000_000_00)
}

fn maturity() -> EffectiveDate {
    day(90)
}

fn interest_periods() -> Vec<InterestPeriod> {
    [30, 58, 89, 90]
        .iter()
        .map(|d| InterestPeriod { end: (START_DAY + d + 1) * MICROS_PER_DAY - 1, end_date: day(*d) })
        .collect()
}

struct Facility {
    plan: CreditFacilityRepaymentPlan,
    structuring_fee: UsdCents,
}

impl Facility {
    fn process_event(&mut self, event: RepaymentPlanEvent) -> bool {
        let periods = interest_periods();
        let interest: Vec<UsdCents> = periods.iter().map(|_| UsdCents::from(1_000_00)).collect();
        self.plan.process_event(0, &event, self.structuring_fee, maturity(), &periods, &interest)
    }
}

fn plan(one_time_fee_pct: u64) -> Facility {
    let mut facility = Facility {
        plan: CreditFacilityRepaymentPlan::new(),
        structuring_fee: UsdCents::from(default_facility_amount().cents * one_time_fee_pct / 100),
    };
    facility.process_event(RepaymentPlanEvent::FacilityCreated { amount: default_facility_amount() });
    facility
}

fn initial_plan() -> Facility {
    plan(5)
}

fn initial_plan_no_structuring_fee() -> Facility {
    plan(0)
}

fn process_events(facility: &mut Facility, events: Vec<RepaymentPlanEvent>) {
    for event in events {
        facility.process_event(event);
    }
}

fn activated() -> RepaymentPlanEvent {
    RepaymentPlanEvent::FacilityActivated { activated_at: default_start_date() }
}

fn created(id: EntityId, obligation_type: ObligationType, amount: u64, recorded_at: i64) -> RepaymentPlanEvent {
    let on = day_of_instant(recorded_at);
    RepaymentPlanEvent::ObligationCreated {
        id,
        obligation_type,
        amount: UsdCents::from(amount),
        due_at: on,
        overdue_at: None,
        defaulted_at: None,
        recorded_at,
        effective: on,
    }
}

fn zero_accrual(end: EffectiveDate) -> RepaymentPlanEvent {
    RepaymentPlanEvent::AccrualPosted {
        amount: UsdCents::zero(),
        due_at: end,
        effective: end,
        recorded_at: (end.days + 1) * MICROS_PER_DAY - 1,
    }
}

#[derive(Debug, Default, PartialEq, Eq)]
struct EntriesCount {
    interest_unpaid: usize,
    interest_paid: usize,
    interest_upcoming: usize,
    disbursals_unpaid: usize,
    disbursals_paid: usize,
    disbursals_upcoming: usize,
}

fn count_entries(facility: &Facility) -> EntriesCount {
    let mut res = EntriesCount::default();
    for entry in facility.plan.entries.iter() {
        match (entry.repayment_type, entry.status) {
            (RepaymentType::Disbursal, RepaymentStatus::Upcoming) => res.disbursals_upcoming += 1,
            (RepaymentType::Disbursal, RepaymentStatus::Paid) => res.disbursals_paid += 1,
            (RepaymentType::Disbursal, _) => res.disbursals_unpaid += 1,
            (RepaymentType::Interest, RepaymentStatus::Upcoming) => res.interest_upcoming += 1,
            (RepaymentType::Interest, RepaymentStatus::Paid) => res.interest_paid += 1,
            (RepaymentType::Interest, _) => res.interest_unpaid += 1,
        }
    }
    res
}

#[test]
fn facility_created() {
    let plan = initial_plan();
    let counts = count_entries(&plan);
    assert_eq!(
        counts,
        EntriesCount {
            interest_unpaid: 0,
            interest_paid: 0,
            interest_upcoming: 4,
            disbursals_unpaid: 0,
            disbursals_paid: 0,
            disbursals_upcoming: 2,
        }
    );
}

#[test]
fn with_zero_structuring_fee() {
    let mut plan = initial_plan_no_structuring_fee();
    process_events(&mut plan, vec![activated()]);
    let counts = count_entries(&plan);
    assert_eq!(
        counts,
        EntriesCount {
            interest_unpaid: 0,
            interest_paid: 0,
            interest_upcoming: 4,
            disbursals_unpaid: 0,
            disbursals_paid: 0,
            disbursals_upcoming: 1,
        }
    );
}

#[test]
fn with_zero_structuring_fee_and_first_accrual() {
    let mut plan = initial_plan_no_structuring_fee();
    process_events(&mut plan, vec![activated(), zero_accrual(day(30))]);
    let counts = count_entries(&plan);
    assert_eq!(
        counts,
        EntriesCount {
            interest_unpaid: 0,
            interest_paid: 1,
            interest_upcoming: 3,
            disbursals_unpaid: 0,
            disbursals_paid: 0,
            disbursals_upcoming: 0,
        }
    );
}

#[test]
fn with_zero_structuring_fee_and_second_accrual() {
    let mut plan = initial_plan_no_structuring_fee();
    process_events(&mut plan, vec![activated(), zero_accrual(day(30)), zero_accrual(day(58))]);
    let counts = count_entries(&plan);
    assert_eq!(
        counts,
        EntriesCount {
            interest_unpaid: 0,
            interest_paid: 2,
            interest_upcoming: 2,
            disbursals_unpaid: 0,
            disbursals_paid: 0,
            disbursals_upcoming: 0,
        }
    );
}

#[test]
fn with_first_disbursal_obligation_created() {
    let mut plan = initial_plan();
    let recorded_at = default_start_date();
    let events = vec![
        activated(),
        created(EntityId::new(), ObligationType::Disbursal, 100_000_00, recorded_at),
    ];
    process_events(&mut plan, events);
    let counts = count_entries(&plan);
    assert_eq!(
        counts,
        EntriesCount {
            interest_unpaid: 0,
            interest_paid: 0,
            interest_upcoming: 4,
            disbursals_unpaid: 1,
            disbursals_paid: 0,
            disbursals_upcoming: 0,
        }
    );
}

#[test]
fn with_first_interest_obligation_created() {
    let mut plan = initial_plan();
    let disbursal_recorded_at = default_start_date();
    let interest_recorded_at = default_start_date_with_days(30);
    let events = vec![
        activated(),
        created(EntityId::new(), ObligationType::Disbursal, 100_000_00, disbursal_recorded_at),
        created(EntityId::new(), ObligationType::Interest, 1_000_00, interest_recorded_at),
    ];
    process_events(&mut plan, events);
    let counts = count_entries(&plan);
    assert_eq!(
        counts,
        EntriesCount {
            interest_unpaid: 1,
            interest_paid: 0,
            interest_upcoming: 3,
            disbursals_unpaid: 1,
            disbursals_paid: 0,
            disbursals_upcoming: 0,
        }
    );
}

fn recorded_interest(plan: &Facility) -> CreditFacilityRepaymentPlanEntry {
    *plan
        .plan
        .entries
        .iter()
        .find(|e| e.repayment_type == RepaymentType::Interest && e.obligation_id.is_some())
        .unwrap()
}

#[test]
fn with_first_interest_partial_payment() {
    let interest_obligation_id = EntityId::new();
    let mut plan = initial_plan();
    let disbursal_recorded_at = default_start_date();
    let interest_recorded_at = default_start_date_with_days(30);
    let events = vec![
        activated(),
        created(EntityId::new(), ObligationType::Disbursal, 100_000_00, disbursal_recorded_at),
        created(interest_obligation_id, ObligationType::Interest, 1_000_00, interest_recorded_at),
        RepaymentPlanEvent::FacilityRepaymentRecorded {
            obligation_id: interest_obligation_id,
            amount: UsdCents::from(400_00),
        },
    ];
    process_events(&mut plan, events);
    let counts = count_entries(&plan);
    assert_eq!(
        counts,
        EntriesCount {
            interest_unpaid: 1,
            interest_paid: 0,
            interest_upcoming: 3,
            disbursals_unpaid: 1,
            disbursals_paid: 0,
            disbursals_upcoming: 0,
        }
    );
    assert_eq!(recorded_interest(&plan).outstanding, UsdCents::from(600_00));
}

#[test]
fn with_first_interest_paid() {
    let interest_obligation_id = EntityId::new();
    let mut plan = initial_plan();
    let disbursal_recorded_at = default_start_date();
    let interest_recorded_at = default_start_date_with_days(30);
    let events = vec![
        activated(),
        created(EntityId::new(), ObligationType::Disbursal, 100_000_00, disbursal_recorded_at),
        created(interest_obligation_id, ObligationType::Interest, 1_000_00, interest_recorded_at),
        RepaymentPlanEvent::FacilityRepaymentRecorded {
            obligation_id: interest_obligation_id,
            amount: UsdCents::from(1_000_00),
        },
    ];
    process_events(&mut plan, events);
    let counts = count_entries(&plan);
    assert_eq!(
        counts,
        EntriesCount {
            interest_unpaid: 1,
            interest_paid: 0,
            interest_upcoming: 3,
            disbursals_unpaid: 1,
            disbursals_paid: 0,
            disbursals_upcoming: 0,
        }
    );
    let entry = recorded_interest(&plan);
    assert_eq!(entry.outstanding, UsdCents::zero());
    assert_ne!(entry.status, RepaymentStatus::Paid);

    plan.process_event(RepaymentPlanEvent::ObligationCompleted { id: interest_obligation_id });
    assert_eq!(recorded_interest(&plan).status, RepaymentStatus::Paid);
}

#[test]
fn with_all_interest_obligations_created() {
    let mut plan = initial_plan();
    let disbursal_recorded_at = default_start_date();
    let events = vec![
        activated(),
        created(EntityId::new(), ObligationType::Disbursal, 100_000_00, disbursal_recorded_at),
        created(EntityId::new(), ObligationType::Interest, 1_000_00, default_start_date_with_days(30)),
        created(EntityId::new(), ObligationType::Interest, 1_000_00, default_start_date_with_days(30 + 28)),
        created(EntityId::new(), ObligationType::Interest, 1_000_00, default_start_date_with_days(30 + 28 + 31)),
        created(EntityId::new(), ObligationType::Interest, 33_00, default_start_date_with_days(30 + 28 + 31 + 1)),
    ];
    process_events(&mut plan, events);
    let counts = count_entries(&plan);
    assert_eq!(
        counts,
        EntriesCount {
            interest_unpaid: 4,
            interest_paid: 0,
            interest_upcoming: 0,
            disbursals_unpaid: 1,
            disbursals_paid: 0,
            disbursals_upcoming: 0,
        }
    );
}

#[test]
fn ignored_events_change_nothing_but_the_sequence() {
    let mut plan = initial_plan();
    let before: Vec<CreditFacilityRepaymentPlanEntry> = plan.plan.entries.clone();
    assert!(plan.plan.apply_obligation_event(7, &RepaymentPlanEvent::ObligationDue { id: EntityId::new() }).is_none());
    assert_eq!(plan.plan.last_updated_on_sequence, 7);
    assert_eq!(plan.plan.entries, before);
    assert!(!plan.process_event(RepaymentPlanEvent::Other));
}

#[test]
fn planned_disbursals_put_the_fee_first() {
    let plan = initial_plan();
    let disbursals = plan.plan.planned_disbursals(UsdCents::from(50_000_00), maturity(), default_start_date());
    assert_eq!(disbursals.len(), 2);
    assert_eq!(disbursals[0].initial, UsdCents::from(50_000_00));
    assert_eq!(disbursals[1].initial, default_facility_amount());
    assert_eq!(disbursals[1].effective, day(0));
    assert_eq!(disbursals[1].due_at, maturity());
    let no_fee = plan.plan.planned_disbursals(UsdCents::zero(), maturity(), default_start_date());
    assert_eq!(no_fee.len(), 1);
    assert_eq!(day_of_instant(-1), EffectiveDate { days: -1 });
}

#[test]
fn interest_still_to_come_starts_after_the_newest_accrual() {
    let periods = interest_periods();
    let interest = vec![UsdCents::from(1), UsdCents::from(2), UsdCents::from(3), UsdCents::from(4)];
    let planned = planned_interest_entries(&periods, &interest);
    assert_eq!(planned.len(), 4);
    assert!(planned.iter().all(|e| e.status == RepaymentStatus::Upcoming && e.obligation_id.is_none()));
    let rest = drop_accrued(planned.clone(), Some(day(58)));
    let amounts: Vec<u64> = rest.iter().map(|e| e.initial.cents).collect();
    assert_eq!(amounts, vec![3, 4]);
    assert_eq!(drop_accrued(planned, None).len(), 4);
}

#[test]
fn processing_records_the_sequence_number() {
    let mut plan = initial_plan();
    let periods = interest_periods();
    let interest: Vec<UsdCents> = periods.iter().map(|_| UsdCents::from(1)).collect();
    assert!(plan.plan.process_event(42, &activated(), UsdCents::zero(), maturity(), &periods, &interest));
    assert_eq!(plan.plan.last_updated_on_sequence, 42);
    assert!(!plan.plan.process_event(43, &RepaymentPlanEvent::Other, UsdCents::zero(), maturity(), &periods, &interest));
    assert_eq!(plan.plan.last_updated_on_sequence, 43);
    assert_eq!(plan.plan.entries.len(), 5);
}
