//! The repayment plan of a credit facility: the obligations recorded so far,
//! kept up to date by obligation events, followed by the repayments still to
//! come, in the order they fall due.

use vstd::prelude::*;

use crate::primitives::{now, ObligationId, Timestamp, UsdCents, MICROS_PER_DAY};

verus! {

/// A calendar day, as a count of days since 1970-01-01.
#[derive(Clone, Copy, Debug, PartialEq, Eq, Structural)]
pub struct EffectiveDate {
    pub days: i64,
}

#[derive(Clone, Copy, Debug, PartialEq, Eq, Structural)]
pub enum ObligationType {
    Disbursal,
    Interest,
}

#[derive(Clone, Copy, Debug, PartialEq, Eq, Structural)]
pub enum ObligationStatus {
    NotYetDue,
    Due,
    Overdue,
    Defaulted,
    Paid,
}

#[derive(Clone, Copy, Debug, PartialEq, Eq, Structural)]
pub enum RepaymentType {
    Disbursal,
    Interest,
}

impl From<ObligationType> for RepaymentType {
    fn from(value: ObligationType) -> (r: RepaymentType) {
        match value {
            ObligationType::Disbursal => RepaymentType::Disbursal,
            ObligationType::Interest => RepaymentType::Interest,
        }
    }
}

impl vstd::std_specs::convert::FromSpecImpl<ObligationType> for RepaymentType {
    open spec fn obeys_from_spec() -> bool {
        true
    }

    open spec fn from_spec(value: ObligationType) -> RepaymentType {
        repayment_type_of(value)
    }
}

pub open spec fn repayment_type_of(value: ObligationType) -> RepaymentType {
    match value {
        ObligationType::Disbursal => RepaymentType::Disbursal,
        ObligationType::Interest => RepaymentType::Interest,
    }
}

#[derive(Clone, Copy, Debug, PartialEq, Eq, Structural)]
pub enum RepaymentStatus {
    Upcoming,
    NotYetDue,
    Due,
    Overdue,
    Defaulted,
    Paid,
}

impl From<ObligationStatus> for RepaymentStatus {
    fn from(status: ObligationStatus) -> (r: RepaymentStatus) {
        match status {
            ObligationStatus::NotYetDue => RepaymentStatus::NotYetDue,
            ObligationStatus::Due => RepaymentStatus::Due,
            ObligationStatus::Overdue => RepaymentStatus::Overdue,
            ObligationStatus::Defaulted => RepaymentStatus::Defaulted,
            ObligationStatus::Paid => RepaymentStatus::Paid,
        }
    }
}

impl vstd::std_specs::convert::FromSpecImpl<ObligationStatus> for RepaymentStatus {
    open spec fn obeys_from_spec() -> bool {
        true
    }

    open spec fn from_spec(status: ObligationStatus) -> RepaymentStatus {
        match status {
            ObligationStatus::NotYetDue => RepaymentStatus::NotYetDue,
            ObligationStatus::Due => RepaymentStatus::Due,
            ObligationStatus::Overdue => RepaymentStatus::Overdue,
            ObligationStatus::Defaulted => RepaymentStatus::Defaulted,
            ObligationStatus::Paid => RepaymentStatus::Paid,
        }
    }
}

/// One repayment of the plan: an obligation already recorded, or one still
/// to come (`Upcoming`, without an obligation id).
#[derive(Clone, Copy, Debug, PartialEq, Eq, Structural)]
pub struct CreditFacilityRepaymentPlanEntry {
    pub repayment_type: RepaymentType,
    pub obligation_id: Option<ObligationId>,
    pub status: RepaymentStatus,
    pub initial: UsdCents,
    pub outstanding: UsdCents,
    pub due_at: EffectiveDate,
    pub overdue_at: Option<EffectiveDate>,
    pub defaulted_at: Option<EffectiveDate>,
    pub recorded_at: Timestamp,
    pub effective: EffectiveDate,
}

/// The position of a repayment in the plan: its due day, then interest
/// before disbursal on the same day.
pub open spec fn plan_key(e: CreditFacilityRepaymentPlanEntry) -> (int, int) {
    (e.due_at.days as int, if e.repayment_type == RepaymentType::Interest { 0 } else { 1 })
}

/// `a` comes strictly before `b` in the plan.
pub open spec fn precedes(a: CreditFacilityRepaymentPlanEntry, b: CreditFacilityRepaymentPlanEntry)
    -> bool {
    plan_key(a).0 < plan_key(b).0 || (plan_key(a).0 == plan_key(b).0 && plan_key(a).1 < plan_key(
        b,
    ).1)
}

/// No repayment of `s` comes strictly before an earlier one.
pub open spec fn in_plan_order(s: Seq<CreditFacilityRepaymentPlanEntry>) -> bool {
    forall|i: int, j: int| 0 <= i < j < s.len() ==> !precedes(#[trigger] s[j], #[trigger] s[i])
}

/// Where `x` goes in `t`: before the first repayment that it strictly
/// precedes, else at the end.
pub open spec fn insertion_point(
    t: Seq<CreditFacilityRepaymentPlanEntry>,
    x: CreditFacilityRepaymentPlanEntry,
) -> nat
    decreases t.len(),
{
    if t.len() == 0 {
        0
    } else if precedes(x, t[0]) {
        0
    } else {
        1 + insertion_point(t.drop_first(), x)
    }
}

/// `s` put in plan order, keeping repayments with the same position in the
/// order they came in.
pub open spec fn plan_order(s: Seq<CreditFacilityRepaymentPlanEntry>) -> Seq<
    CreditFacilityRepaymentPlanEntry,
>
    decreases s.len(),
{
    if s.len() == 0 {
        s
    } else {
        let t = plan_order(s.drop_last());
        t.insert(insertion_point(t, s.last()) as int, s.last())
    }
}

proof fn lemma_insertion_point_is_first(
    t: Seq<CreditFacilityRepaymentPlanEntry>,
    x: CreditFacilityRepaymentPlanEntry,
    k: int,
)
    requires
        0 <= k <= t.len(),
        forall|j: int| 0 <= j < k ==> !precedes(x, #[trigger] t[j]),
        k == t.len() || precedes(x, t[k]),
    ensures
        insertion_point(t, x) == k,
    decreases k,
{
    if k > 0 {
        assert(!precedes(x, t[0]));
        assert forall|j: int| 0 <= j < k - 1 implies !precedes(x, #[trigger] t.drop_first()[j]) by {
            assert(t.drop_first()[j] == t[j + 1]);
        }
        if k < t.len() {
            assert(t.drop_first()[k - 1] == t[k]);
        }
        lemma_insertion_point_is_first(t.drop_first(), x, k - 1);
    }
}

proof fn lemma_insertion_point_bound(
    t: Seq<CreditFacilityRepaymentPlanEntry>,
    x: CreditFacilityRepaymentPlanEntry,
)
    ensures
        insertion_point(t, x) <= t.len(),
        forall|j: int| 0 <= j < insertion_point(t, x) ==> !precedes(x, #[trigger] t[j]),
        insertion_point(t, x) < t.len() ==> precedes(x, t[insertion_point(t, x) as int]),
    decreases t.len(),
{
    if t.len() > 0 && !precedes(x, t[0]) {
        lemma_insertion_point_bound(t.drop_first(), x);
        assert forall|j: int| 0 <= j < insertion_point(t, x) implies !precedes(x, #[trigger] t[j]) by {
            if j > 0 {
                assert(t[j] == t.drop_first()[j - 1]);
            }
        }
        if insertion_point(t, x) < t.len() {
            assert(t[insertion_point(t, x) as int] == t.drop_first()[insertion_point(
                t.drop_first(),
                x,
            ) as int]);
        }
    }
}

/// Putting repayments in plan order keeps every repayment (as many times as
/// it occurs) and leaves them in plan order.
pub proof fn plan_order_sorts(s: Seq<CreditFacilityRepaymentPlanEntry>)
    ensures
        in_plan_order(plan_order(s)),
        plan_order(s).to_multiset() =~= s.to_multiset(),
    decreases s.len(),
{
    broadcast use vstd::seq_lib::group_to_multiset_ensures;

    if s.len() > 0 {
        let t = plan_order(s.drop_last());
        let x = s.last();
        plan_order_sorts(s.drop_last());
        lemma_insertion_point_bound(t, x);
        let k = insertion_point(t, x) as int;
        let r = t.insert(k, x);
        assert(r == plan_order(s));
        assert forall|i: int, j: int| 0 <= i < j < r.len() implies !precedes(
            #[trigger] r[j],
            #[trigger] r[i],
        ) by {
            if j < k {
                assert(r[i] == t[i] && r[j] == t[j]);
            } else if j == k {
                assert(r[i] == t[i]);
            } else if i == k {
                assert(r[j] == t[j - 1]);
                assert(precedes(x, t[k]));
                if j - 1 > k {
                    assert(!precedes(t[j - 1], t[k]));
                }
            } else if i < k {
                assert(r[i] == t[i] && r[j] == t[j - 1]);
            } else {
                assert(r[i] == t[i - 1] && r[j] == t[j - 1]);
            }
        }
        assert(s =~= s.drop_last().push(x));
        assert(r.remove(k) =~= t);
        assert(r[k] == x);
        assert(r.contains(x));
        assert(r.to_multiset().count(x) > 0);
        assert(r.to_multiset() =~= t.to_multiset().insert(x));
    }
}

impl CreditFacilityRepaymentPlanEntry {
    /// Whether the repayment is an obligation already recorded.
    pub fn is_not_upcoming(&self) -> (b: bool)
        ensures
            b == (self.status != RepaymentStatus::Upcoming),
    {
        self.status != RepaymentStatus::Upcoming
    }

    /// Whether `self` comes strictly before `other` in the plan.
    pub fn precedes(&self, other: &CreditFacilityRepaymentPlanEntry) -> (b: bool)
        ensures
            b == precedes(*self, *other),
    {
        if self.due_at.days != other.due_at.days {
            self.due_at.days < other.due_at.days
        } else {
            self.repayment_type == RepaymentType::Interest && other.repayment_type
                == RepaymentType::Disbursal
        }
    }
}

/// Puts the repayments in plan order, keeping those with the same position
/// in the order they came in.
pub fn sort_into_plan_order(entries: Vec<CreditFacilityRepaymentPlanEntry>) -> (r: Vec<
    CreditFacilityRepaymentPlanEntry,
>)
    ensures
        r@ == plan_order(entries@),
{
    let mut sorted: Vec<CreditFacilityRepaymentPlanEntry> = Vec::new();
    let n = entries.len();
    let mut i: usize = 0;
    while i < n
        invariant
            n == entries.len(),
            i <= n,
            sorted@ == plan_order(entries@.take(i as int)),
        decreases n - i,
    {
        let x = entries[i];
        let mut k: usize = 0;
        while k < sorted.len() && !x.precedes(&sorted[k])
            invariant
                k <= sorted.len(),
                forall|j: int| 0 <= j < k ==> !precedes(x, #[trigger] sorted@[j]),
            decreases sorted.len() - k,
        {
            k += 1;
        }
        proof {
            lemma_insertion_point_is_first(sorted@, x, k as int);
            assert(entries@.take(i + 1).drop_last() =~= entries@.take(i as int));
            assert(entries@.take(i + 1).last() == x);
        }
        sorted.insert(k, x);
        i += 1;
    }
    assert(entries@.take(n as int) =~= entries@);
    sorted
}

/// The repayments that are recorded obligations, in their order.
pub open spec fn recorded_obligations(entries: Seq<CreditFacilityRepaymentPlanEntry>) -> Seq<
    CreditFacilityRepaymentPlanEntry,
> {
    entries.filter(|e: CreditFacilityRepaymentPlanEntry| e.status != RepaymentStatus::Upcoming)
}

/// The sum of what is outstanding on the disbursal repayments.
pub open spec fn disbursed_sum(entries: Seq<CreditFacilityRepaymentPlanEntry>) -> int
    decreases entries.len(),
{
    if entries.len() == 0 {
        0
    } else {
        disbursed_sum(entries.drop_last()) + if entries.last().repayment_type
            == RepaymentType::Disbursal {
            entries.last().outstanding.cents as int
        } else {
            0
        }
    }
}

/// What the plan reads of the credit events.
#[derive(Clone, Copy, Debug)]
pub enum RepaymentPlanEvent {
    FacilityCreated { amount: UsdCents },
    FacilityActivated { activated_at: Timestamp },
    ObligationCreated {
        id: ObligationId,
        obligation_type: ObligationType,
        amount: UsdCents,
        due_at: EffectiveDate,
        overdue_at: Option<EffectiveDate>,
        defaulted_at: Option<EffectiveDate>,
        recorded_at: Timestamp,
        effective: EffectiveDate,
    },
    AccrualPosted {
        amount: UsdCents,
        due_at: EffectiveDate,
        effective: EffectiveDate,
        recorded_at: Timestamp,
    },
    FacilityRepaymentRecorded { obligation_id: ObligationId, amount: UsdCents },
    ObligationDue { id: ObligationId },
    ObligationOverdue { id: ObligationId },
    ObligationDefaulted { id: ObligationId },
    ObligationCompleted { id: ObligationId },
    /// Any other credit event.
    Other,
}

/// The position of the first repayment with the obligation id, if any.
pub open spec fn obligation_position(entries: Seq<CreditFacilityRepaymentPlanEntry>, id: ObligationId)
    -> Option<int>
    decreases entries.len(),
{
    if entries.len() == 0 {
        None
    } else if entries[0].obligation_id == Some(id) {
        Some(0)
    } else {
        match obligation_position(entries.drop_first(), id) {
            Some(k) => Some(k + 1),
            None => None,
        }
    }
}

/// The status an obligation event gives its repayment.
pub open spec fn status_after(event: RepaymentPlanEvent) -> RepaymentStatus {
    match event {
        RepaymentPlanEvent::ObligationDue { .. } => RepaymentStatus::Due,
        RepaymentPlanEvent::ObligationOverdue { .. } => RepaymentStatus::Overdue,
        RepaymentPlanEvent::ObligationDefaulted { .. } => RepaymentStatus::Defaulted,
        _ => RepaymentStatus::Paid,
    }
}

/// The recorded obligations after the event, or none when the plan ignores
/// the event (a nonzero accrual, an event about an obligation it does not
/// hold, or an event it does not read).
pub open spec fn obligations_after(
    obligations: Seq<CreditFacilityRepaymentPlanEntry>,
    event: RepaymentPlanEvent,
) -> Option<Seq<CreditFacilityRepaymentPlanEntry>> {
    match event {
        RepaymentPlanEvent::FacilityCreated { .. } => Some(obligations),
        RepaymentPlanEvent::FacilityActivated { .. } => Some(obligations),
        RepaymentPlanEvent::ObligationCreated {
            id,
            obligation_type,
            amount,
            due_at,
            overdue_at,
            defaulted_at,
            recorded_at,
            effective,
        } => Some(
            obligations.push(
                CreditFacilityRepaymentPlanEntry {
                    repayment_type: repayment_type_of(obligation_type),
                    obligation_id: Some(id),
                    status: RepaymentStatus::NotYetDue,
                    initial: amount,
                    outstanding: amount,
                    due_at,
                    overdue_at,
                    defaulted_at,
                    recorded_at,
                    effective,
                },
            ),
        ),
        RepaymentPlanEvent::AccrualPosted { amount, due_at, effective, recorded_at } => if amount.cents
            == 0 {
            Some(
                obligations.push(
                    CreditFacilityRepaymentPlanEntry {
                        repayment_type: RepaymentType::Interest,
                        obligation_id: None,
                        status: RepaymentStatus::Paid,
                        initial: UsdCents { cents: 0 },
                        outstanding: UsdCents { cents: 0 },
                        due_at,
                        overdue_at: None,
                        defaulted_at: None,
                        recorded_at,
                        effective,
                    },
                ),
            )
        } else {
            None
        },
        RepaymentPlanEvent::FacilityRepaymentRecorded { obligation_id, amount } => match obligation_position(
            obligations,
            obligation_id,
        ) {
            Some(k) => Some(
                obligations.update(
                    k,
                    CreditFacilityRepaymentPlanEntry {
                        outstanding: UsdCents {
                            cents: (obligations[k].outstanding.cents - amount.cents) as u64,
                        },
                        ..obligations[k]
                    },
                ),
            ),
            None => None,
        },
        RepaymentPlanEvent::ObligationDue { id }
        | RepaymentPlanEvent::ObligationOverdue { id }
        | RepaymentPlanEvent::ObligationDefaulted { id }
        | RepaymentPlanEvent::ObligationCompleted { id } => match obligation_position(
            obligations,
            id,
        ) {
            Some(k) => Some(
                obligations.update(
                    k,
                    CreditFacilityRepaymentPlanEntry { status: status_after(event), ..obligations[k] },
                ),
            ),
            None => None,
        },
        RepaymentPlanEvent::Other => None,
    }
}

/// A repayment event does not take more than is outstanding on its
/// obligation.
pub open spec fn repayment_within_outstanding(
    obligations: Seq<CreditFacilityRepaymentPlanEntry>,
    event: RepaymentPlanEvent,
) -> bool {
    match event {
        RepaymentPlanEvent::FacilityRepaymentRecorded { obligation_id, amount } => match obligation_position(
            obligations,
            obligation_id,
        ) {
            Some(k) => amount.cents <= obligations[k].outstanding.cents,
            None => true,
        },
        _ => true,
    }
}

/// The day of the newest interest accrual after the event: that of an
/// interest obligation or of a zero accrual, else unchanged.
pub open spec fn interest_accrual_after(last: Option<EffectiveDate>, event: RepaymentPlanEvent) -> Option<
    EffectiveDate,
> {
    match event {
        RepaymentPlanEvent::ObligationCreated { obligation_type, effective, .. } => if obligation_type
            == ObligationType::Interest {
            Some(effective)
        } else {
            last
        },
        RepaymentPlanEvent::AccrualPosted { amount, effective, .. } => if amount.cents == 0 {
            Some(effective)
        } else {
            last
        },
        _ => last,
    }
}

proof fn lemma_obligation_position(entries: Seq<CreditFacilityRepaymentPlanEntry>, id: ObligationId, k: int)
    requires
        0 <= k <= entries.len(),
        forall|j: int| 0 <= j < k ==> (#[trigger] entries[j]).obligation_id != Some(id),
        k == entries.len() || entries[k].obligation_id == Some(id),
    ensures
        obligation_position(entries, id) == (if k == entries.len() {
            None::<int>
        } else {
            Some(k)
        }),
    decreases k,
{
    if k > 0 {
        assert(entries[0].obligation_id != Some(id));
        assert forall|j: int| 0 <= j < k - 1 implies (
        #[trigger] entries.drop_first()[j]).obligation_id != Some(id) by {
            assert(entries.drop_first()[j] == entries[j + 1]);
        }
        if k < entries.len() {
            assert(entries.drop_first()[k - 1] == entries[k]);
        }
        lemma_obligation_position(entries.drop_first(), id, k - 1);
    }
}

/// Finds the first repayment with the obligation id.
fn find_obligation(entries: &Vec<CreditFacilityRepaymentPlanEntry>, id: ObligationId) -> (r: Option<
    usize,
>)
    ensures
        match r {
            Some(k) => obligation_position(entries@, id) == Some(k as int) && k < entries@.len(),
            None => obligation_position(entries@, id) is None,
        },
{
    let mut k: usize = 0;
    while k < entries.len()
        invariant
            k <= entries.len(),
            forall|j: int| 0 <= j < k ==> (#[trigger] entries@[j]).obligation_id != Some(id),
        decreases entries.len() - k,
    {
        if entries[k].obligation_id == Some(id) {
            proof {
                lemma_obligation_position(entries@, id, k as int);
            }
            return Some(k);
        }
        k += 1;
    }
    proof {
        lemma_obligation_position(entries@, id, k as int);
    }
    None
}


/// The calendar day (UTC) of an instant.
pub open spec fn day_of(t: Timestamp) -> EffectiveDate {
    EffectiveDate { days: ((t as int) / (MICROS_PER_DAY as int)) as i64 }
}

/// The calendar day (UTC) of an instant.
pub fn day_of_instant(t: Timestamp) -> (d: EffectiveDate)
    ensures
        d == day_of(t),
{
    let q = t / MICROS_PER_DAY;
    let r = t % MICROS_PER_DAY;
    if r < 0 {
        EffectiveDate { days: q - 1 }
    } else {
        EffectiveDate { days: q }
    }
}


/// The end of an interest period: the instant and its calendar day.
#[derive(Clone, Copy, Debug, PartialEq, Eq, Structural)]
pub struct InterestPeriod {
    pub end: Timestamp,
    pub end_date: EffectiveDate,
}

/// A disbursal of `amount` still to come: due at maturity and recorded at
/// activation, without an obligation.
pub open spec fn upcoming_disbursal(amount: UsdCents, maturity: EffectiveDate, activated_at: Timestamp)
    -> CreditFacilityRepaymentPlanEntry {
    CreditFacilityRepaymentPlanEntry {
        repayment_type: RepaymentType::Disbursal,
        obligation_id: None,
        status: RepaymentStatus::Upcoming,
        initial: amount,
        outstanding: amount,
        due_at: maturity,
        overdue_at: None,
        defaulted_at: None,
        recorded_at: activated_at,
        effective: day_of(activated_at),
    }
}

/// The disbursals still to come before any obligation is recorded: the
/// structuring fee, unless it is zero, then the facility's amount.
pub open spec fn disbursal_plan(
    structuring_fee: UsdCents,
    facility_amount: UsdCents,
    maturity: EffectiveDate,
    activated_at: Timestamp,
) -> Seq<CreditFacilityRepaymentPlanEntry> {
    let facility = seq![upcoming_disbursal(facility_amount, maturity, activated_at)];
    if structuring_fee.cents == 0 {
        facility
    } else {
        seq![upcoming_disbursal(structuring_fee, maturity, activated_at)] + facility
    }
}

/// An interest payment still to come for the period: due and effective on
/// its last day, recorded at its end, without an obligation.
pub open spec fn upcoming_interest(period: InterestPeriod, amount: UsdCents)
    -> CreditFacilityRepaymentPlanEntry {
    CreditFacilityRepaymentPlanEntry {
        repayment_type: RepaymentType::Interest,
        obligation_id: None,
        status: RepaymentStatus::Upcoming,
        initial: amount,
        outstanding: amount,
        due_at: period.end_date,
        overdue_at: None,
        defaulted_at: None,
        recorded_at: period.end,
        effective: period.end_date,
    }
}

/// One interest payment still to come per period, in the periods' order.
pub open spec fn interest_plan(periods: Seq<InterestPeriod>, interest: Seq<UsdCents>) -> Seq<
    CreditFacilityRepaymentPlanEntry,
> {
    Seq::new(periods.len(), |i: int| upcoming_interest(periods[i], interest[i]))
}

/// Every repayment of `s` is a recorded obligation.
pub open spec fn all_recorded(s: Seq<CreditFacilityRepaymentPlanEntry>) -> bool {
    forall|i: int| 0 <= i < s.len() ==> (#[trigger] s[i]).status != RepaymentStatus::Upcoming
}

/// Every repayment of `s` is still to come, has no obligation and is of
/// type `t`.
pub open spec fn all_upcoming(s: Seq<CreditFacilityRepaymentPlanEntry>, t: RepaymentType) -> bool {
    forall|i: int|
        0 <= i < s.len() ==> {
            &&& (#[trigger] s[i]).status == RepaymentStatus::Upcoming
            &&& s[i].obligation_id is None
            &&& s[i].repayment_type == t
        }
}

/// No repayment still to come carries an obligation id.
pub open spec fn upcoming_without_obligation(s: Seq<CreditFacilityRepaymentPlanEntry>) -> bool {
    forall|i: int|
        0 <= i < s.len() && (#[trigger] s[i]).status == RepaymentStatus::Upcoming
            ==> s[i].obligation_id is None
}

/// Once an obligation is recorded, no disbursal is still to come.
pub open spec fn no_upcoming_disbursal_beside_recorded(s: Seq<CreditFacilityRepaymentPlanEntry>) -> bool {
    (exists|i: int| 0 <= i < s.len() && (#[trigger] s[i]).status != RepaymentStatus::Upcoming) ==> forall|j: int|
        0 <= j < s.len() ==> !((#[trigger] s[j]).status == RepaymentStatus::Upcoming
            && s[j].repayment_type == RepaymentType::Disbursal)
}

/// The plan after an event that the plan did not ignore: the recorded
/// obligations (or, when there are none, the planned disbursals) and the
/// planned interest payments, in plan order.
pub open spec fn plan_after(
    after: Seq<CreditFacilityRepaymentPlanEntry>,
    disbursals: Seq<CreditFacilityRepaymentPlanEntry>,
    interest: Seq<CreditFacilityRepaymentPlanEntry>,
) -> Seq<CreditFacilityRepaymentPlanEntry> {
    plan_order((if after.len() > 0 { after } else { disbursals }) + interest)
}

/// Every repayment of a sorted plan comes from the repayments it was made of.
proof fn lemma_plan_order_entry_source(s: Seq<CreditFacilityRepaymentPlanEntry>, j: int)
    requires
        0 <= j < plan_order(s).len(),
    ensures
        exists|k: int| 0 <= k < s.len() && s[k] == plan_order(s)[j],
{
    broadcast use vstd::seq_lib::group_to_multiset_ensures;

    plan_order_sorts(s);
    let x = plan_order(s)[j];
    assert(plan_order(s).contains(x));
    assert(s.to_multiset().count(x) > 0);
    assert(s.contains(x));
}

proof fn lemma_recorded_obligations_are_recorded(entries: Seq<CreditFacilityRepaymentPlanEntry>)
    ensures
        all_recorded(recorded_obligations(entries)),
{
    let r = recorded_obligations(entries);
    assert forall|i: int| 0 <= i < r.len() implies (#[trigger] r[i]).status
        != RepaymentStatus::Upcoming by {
        entries.lemma_filter_pred(
            |e: CreditFacilityRepaymentPlanEntry| e.status != RepaymentStatus::Upcoming,
            i,
        );
    }
}

proof fn lemma_events_keep_obligations_recorded(
    obligations: Seq<CreditFacilityRepaymentPlanEntry>,
    event: RepaymentPlanEvent,
)
    requires
        all_recorded(obligations),
    ensures
        obligations_after(obligations, event) matches Some(after) ==> all_recorded(after),
{
    match event {
        RepaymentPlanEvent::FacilityRepaymentRecorded { obligation_id, .. } => {
            lemma_obligation_position_bound(obligations, obligation_id);
        },
        RepaymentPlanEvent::ObligationDue { id }
        | RepaymentPlanEvent::ObligationOverdue { id }
        | RepaymentPlanEvent::ObligationDefaulted { id }
        | RepaymentPlanEvent::ObligationCompleted { id } => {
            lemma_obligation_position_bound(obligations, id);
        },
        _ => {},
    }
    if let Some(after) = obligations_after(obligations, event) {
        assert forall|i: int| 0 <= i < after.len() implies (#[trigger] after[i]).status
            != RepaymentStatus::Upcoming by {
            if i < obligations.len() {
                assert(obligations[i].status != RepaymentStatus::Upcoming);
            }
        }
    }
}

/// A plan made of recorded obligations, planned disbursals and planned
/// interest payments keeps its shape: no repayment still to come carries an
/// obligation id, and once an obligation is recorded no disbursal is still to
/// come.
pub proof fn plan_shape_from_parts(
    obligations: Seq<CreditFacilityRepaymentPlanEntry>,
    disbursals: Seq<CreditFacilityRepaymentPlanEntry>,
    interest: Seq<CreditFacilityRepaymentPlanEntry>,
)
    requires
        all_recorded(obligations),
        all_upcoming(disbursals, RepaymentType::Disbursal),
        all_upcoming(interest, RepaymentType::Interest),
    ensures
        upcoming_without_obligation(plan_after(obligations, disbursals, interest)),
        no_upcoming_disbursal_beside_recorded(plan_after(obligations, disbursals, interest)),
{
    let base = if obligations.len() > 0 {
        obligations
    } else {
        disbursals
    };
    let s = base + interest;
    let p = plan_after(obligations, disbursals, interest);
    assert(p == plan_order(s));
    assert forall|i: int|
        0 <= i < p.len() && (#[trigger] p[i]).status == RepaymentStatus::Upcoming implies p[i].obligation_id
        is None by {
        lemma_plan_order_entry_source(s, i);
        let k = choose|k: int| 0 <= k < s.len() && s[k] == p[i];
        if k < base.len() {
            assert(s[k] == base[k]);
        } else {
            assert(s[k] == interest[k - base.len()]);
        }
    }
    if exists|i: int| 0 <= i < p.len() && (#[trigger] p[i]).status != RepaymentStatus::Upcoming {
        let i = choose|i: int| 0 <= i < p.len() && (#[trigger] p[i]).status != RepaymentStatus::Upcoming;
        lemma_plan_order_entry_source(s, i);
        let k = choose|k: int| 0 <= k < s.len() && s[k] == p[i];
        if k < base.len() {
            assert(s[k] == base[k]);
            if obligations.len() == 0 {
                assert(base[k] == disbursals[k]);
            }
        } else {
            assert(s[k] == interest[k - base.len()]);
        }
        assert(obligations.len() > 0);
        assert forall|j: int| 0 <= j < p.len() implies !((#[trigger] p[j]).status
            == RepaymentStatus::Upcoming && p[j].repayment_type == RepaymentType::Disbursal) by {
            lemma_plan_order_entry_source(s, j);
            let m = choose|m: int| 0 <= m < s.len() && s[m] == p[j];
            if m < base.len() {
                assert(s[m] == obligations[m]);
            } else {
                assert(s[m] == interest[m - base.len()]);
            }
        }
    }
}


/// Some recorded obligation carries the id.
pub open spec fn holds_obligation(obligations: Seq<CreditFacilityRepaymentPlanEntry>, id: ObligationId)
    -> bool {
    exists|i: int| 0 <= i < obligations.len() && (#[trigger] obligations[i]).obligation_id == Some(id)
}

/// The events the plan ignores: one it does not read, an accrual of a
/// nonzero amount, and a repayment or status change of an obligation it does
/// not hold.
pub open spec fn ignores_event(obligations: Seq<CreditFacilityRepaymentPlanEntry>, event: RepaymentPlanEvent)
    -> bool {
    match event {
        RepaymentPlanEvent::Other => true,
        RepaymentPlanEvent::AccrualPosted { amount, .. } => amount.cents != 0,
        RepaymentPlanEvent::FacilityRepaymentRecorded { obligation_id, .. } => !holds_obligation(
            obligations,
            obligation_id,
        ),
        RepaymentPlanEvent::ObligationDue { id }
        | RepaymentPlanEvent::ObligationOverdue { id }
        | RepaymentPlanEvent::ObligationDefaulted { id }
        | RepaymentPlanEvent::ObligationCompleted { id } => !holds_obligation(obligations, id),
        _ => false,
    }
}

proof fn lemma_obligation_position_finds(entries: Seq<CreditFacilityRepaymentPlanEntry>, id: ObligationId)
    ensures
        obligation_position(entries, id) is None <==> !holds_obligation(entries, id),
    decreases entries.len(),
{
    if entries.len() > 0 {
        let rest = entries.drop_first();
        lemma_obligation_position_finds(rest, id);
        if entries[0].obligation_id != Some(id) {
            if holds_obligation(entries, id) {
                let i = choose|i: int|
                    0 <= i < entries.len() && (#[trigger] entries[i]).obligation_id == Some(id);
                assert(rest[i - 1] == entries[i]);
            }
            if holds_obligation(rest, id) {
                let i = choose|i: int| 0 <= i < rest.len() && (#[trigger] rest[i]).obligation_id == Some(id);
                assert(entries[i + 1] == rest[i]);
            }
        } else {
            assert(entries[0].obligation_id == Some(id));
        }
    }
}

/// The plan ignores an event exactly when it does not read it, when it is an
/// accrual of a nonzero amount, or when it is a repayment or status change of
/// an obligation that none of the recorded obligations carries.
pub proof fn ignored_events(obligations: Seq<CreditFacilityRepaymentPlanEntry>, event: RepaymentPlanEvent)
    ensures
        obligations_after(obligations, event) is None <==> ignores_event(obligations, event),
{
    match event {
        RepaymentPlanEvent::FacilityRepaymentRecorded { obligation_id, .. } => {
            lemma_obligation_position_finds(obligations, obligation_id);
        },
        RepaymentPlanEvent::ObligationDue { id }
        | RepaymentPlanEvent::ObligationOverdue { id }
        | RepaymentPlanEvent::ObligationDefaulted { id }
        | RepaymentPlanEvent::ObligationCompleted { id } => {
            lemma_obligation_position_finds(obligations, id);
        },
        _ => {},
    }
}

/// After an event that the plan does not ignore, the plan made of the
/// obligations then recorded (or, while there are none, the planned
/// disbursals) and the planned interest payments is in plan order, keeps
/// every one of those repayments, has no repayment still to come that
/// carries an obligation id, and, once an obligation is recorded, no
/// disbursal still to come.
pub proof fn processed_plan_shape(
    entries: Seq<CreditFacilityRepaymentPlanEntry>,
    event: RepaymentPlanEvent,
    structuring_fee: UsdCents,
    facility_amount: UsdCents,
    maturity: EffectiveDate,
    activated_at: Timestamp,
    periods: Seq<InterestPeriod>,
    interest: Seq<UsdCents>,
)
    requires
        periods.len() == interest.len(),
    ensures
        obligations_after(recorded_obligations(entries), event) matches Some(after) ==> {
            let disbursals = disbursal_plan(structuring_fee, facility_amount, maturity, activated_at);
            let planned_interest = interest_plan(periods, interest);
            let p = plan_after(after, disbursals, planned_interest);
            &&& in_plan_order(p)
            &&& p.to_multiset() =~= ((if after.len() > 0 {
                after
            } else {
                disbursals
            }) + planned_interest).to_multiset()
            &&& upcoming_without_obligation(p)
            &&& no_upcoming_disbursal_beside_recorded(p)
        },
{
    let obligations = recorded_obligations(entries);
    lemma_recorded_obligations_are_recorded(entries);
    lemma_events_keep_obligations_recorded(obligations, event);
    if let Some(after) = obligations_after(obligations, event) {
        let disbursals = disbursal_plan(structuring_fee, facility_amount, maturity, activated_at);
        let planned_interest = interest_plan(periods, interest);
        plan_order_sorts(
            (if after.len() > 0 {
                after
            } else {
                disbursals
            }) + planned_interest,
        );
        plan_shape_from_parts(after, disbursals, planned_interest);
    }
}


/// The day `d` comes after the newest interest accrual, if there was one.
pub open spec fn after_accrual(d: EffectiveDate, last: Option<EffectiveDate>) -> bool {
    match last {
        Some(l) => d.days > l.days,
        None => true,
    }
}

/// The planned repayments that fall due after the newest interest accrual,
/// in their order.
pub open spec fn still_to_accrue(
    entries: Seq<CreditFacilityRepaymentPlanEntry>,
    last: Option<EffectiveDate>,
) -> Seq<CreditFacilityRepaymentPlanEntry> {
    entries.filter(|e: CreditFacilityRepaymentPlanEntry| after_accrual(e.due_at, last))
}

/// Keeps the planned repayments that fall due after the newest interest
/// accrual.
pub fn drop_accrued(entries: Vec<CreditFacilityRepaymentPlanEntry>, last: Option<EffectiveDate>) -> (r:
    Vec<CreditFacilityRepaymentPlanEntry>)
    ensures
        r@ == still_to_accrue(entries@, last),
        all_upcoming(entries@, RepaymentType::Interest) ==> all_upcoming(r@, RepaymentType::Interest),
{
    let mut r: Vec<CreditFacilityRepaymentPlanEntry> = Vec::new();
    let n = entries.len();
    let mut i: usize = 0;
    while i < n
        invariant
            n == entries@.len(),
            i <= n,
            r@ == still_to_accrue(entries@.take(i as int), last),
            all_upcoming(entries@, RepaymentType::Interest) ==> all_upcoming(
                r@,
                RepaymentType::Interest,
            ),
        decreases n - i,
    {
        proof {
            let prefix = entries@.take(i + 1);
            assert(prefix.drop_last() =~= entries@.take(i as int));
            assert(prefix.last() == entries@[i as int]);
            reveal(Seq::filter);
        }
        let e = entries[i];
        let keep = match last {
            Some(l) => e.due_at.days > l.days,
            None => true,
        };
        if keep {
            r.push(e);
        }
        i += 1;
    }
    assert(entries@.take(n as int) =~= entries@);
    r
}

/// The repayment plan of a credit facility.
pub struct CreditFacilityRepaymentPlan {
    pub facility_amount: UsdCents,
    pub activated_at: Option<Timestamp>,
    /// The day of the newest interest accrual.
    pub last_interest_accrual_on: Option<EffectiveDate>,
    /// The sequence number of the last event the plan was given.
    pub last_updated_on_sequence: u64,
    pub entries: Vec<CreditFacilityRepaymentPlanEntry>,
}

impl CreditFacilityRepaymentPlan {
    /// An empty plan.
    pub fn new() -> (p: CreditFacilityRepaymentPlan)
        ensures
            p.facility_amount.cents == 0,
            p.activated_at is None,
            p.last_interest_accrual_on is None,
            p.last_updated_on_sequence == 0,
            p.entries@.len() == 0,
    {
        CreditFacilityRepaymentPlan {
            facility_amount: UsdCents { cents: 0 },
            activated_at: None,
            last_interest_accrual_on: None,
            last_updated_on_sequence: 0,
            entries: Vec::new(),
        }
    }

    /// The repayments that are recorded obligations, in their order.
    pub fn existing_obligations(&self) -> (r: Vec<CreditFacilityRepaymentPlanEntry>)
        ensures
            r@ == recorded_obligations(self.entries@),
    {
        let mut r: Vec<CreditFacilityRepaymentPlanEntry> = Vec::new();
        let n = self.entries.len();
        let mut i: usize = 0;
        while i < n
            invariant
                n == self.entries.len(),
                i <= n,
                r@ == recorded_obligations(self.entries@.take(i as int)),
            decreases n - i,
        {
            proof {
                let prefix = self.entries@.take(i + 1);
                assert(prefix.drop_last() =~= self.entries@.take(i as int));
                assert(prefix.last() == self.entries@[i as int]);
                reveal(Seq::filter);
            }
            if self.entries[i].is_not_upcoming() {
                r.push(self.entries[i]);
            }
            i += 1;
        }
        assert(self.entries@.take(n as int) =~= self.entries@);
        r
    }

    /// Records the event's sequence number, applies the event to the recorded
    /// obligations and records the newest interest accrual day and the
    /// facility's amount and activation. Returns the recorded obligations
    /// after the event, or none when the plan ignores the event (then nothing
    /// but the sequence number changes).
    pub fn apply_obligation_event(&mut self, sequence: u64, event: &RepaymentPlanEvent) -> (r:
        Option<Vec<CreditFacilityRepaymentPlanEntry>>)
        requires
            repayment_within_outstanding(recorded_obligations(old(self).entries@), *event),
        ensures
            match r {
                Some(v) => obligations_after(recorded_obligations(old(self).entries@), *event)
                    == Some(v@),
                None => obligations_after(recorded_obligations(old(self).entries@), *event) is None,
            },
            r matches Some(v) ==> all_recorded(v@),
            final(self).last_updated_on_sequence == sequence,
            r is None ==> final(self).facility_amount == old(self).facility_amount
                && final(self).activated_at == old(self).activated_at,
            r is Some ==> final(self).last_interest_accrual_on == interest_accrual_after(
                old(self).last_interest_accrual_on,
                *event,
            ),
            r is None ==> final(self).last_interest_accrual_on == old(self).last_interest_accrual_on,
            final(self).entries@ == old(self).entries@,
            final(self).facility_amount == (match *event {
                RepaymentPlanEvent::FacilityCreated { amount } => amount,
                _ => old(self).facility_amount,
            }),
            final(self).activated_at == (match *event {
                RepaymentPlanEvent::FacilityActivated { activated_at } => Some(activated_at),
                _ => old(self).activated_at,
            }),
    {
        self.last_updated_on_sequence = sequence;
        let mut obligations = self.existing_obligations();
        proof {
            lemma_recorded_obligations_are_recorded(old(self).entries@);
            lemma_events_keep_obligations_recorded(obligations@, *event);
        }
        match *event {
            RepaymentPlanEvent::FacilityCreated { amount } => {
                self.facility_amount = amount;
            },
            RepaymentPlanEvent::FacilityActivated { activated_at } => {
                self.activated_at = Some(activated_at);
            },
            RepaymentPlanEvent::ObligationCreated {
                id,
                obligation_type,
                amount,
                due_at,
                overdue_at,
                defaulted_at,
                recorded_at,
                effective,
            } => {
                let entry = CreditFacilityRepaymentPlanEntry {
                    repayment_type: RepaymentType::from(obligation_type),
                    obligation_id: Some(id),
                    status: RepaymentStatus::NotYetDue,
                    initial: amount,
                    outstanding: amount,
                    due_at,
                    overdue_at,
                    defaulted_at,
                    recorded_at,
                    effective,
                };
                if obligation_type == ObligationType::Interest {
                    self.last_interest_accrual_on = Some(effective);
                }
                obligations.push(entry);
            },
            RepaymentPlanEvent::AccrualPosted { amount, due_at, effective, recorded_at } => {
                if !amount.is_zero() {
                    return None;
                }
                let entry = CreditFacilityRepaymentPlanEntry {
                    repayment_type: RepaymentType::Interest,
                    obligation_id: None,
                    status: RepaymentStatus::Paid,
                    initial: UsdCents::zero(),
                    outstanding: UsdCents::zero(),
                    due_at,
                    overdue_at: None,
                    defaulted_at: None,
                    recorded_at,
                    effective,
                };
                self.last_interest_accrual_on = Some(effective);
                obligations.push(entry);
            },
            RepaymentPlanEvent::FacilityRepaymentRecorded { obligation_id, amount } => {
                match find_obligation(&obligations, obligation_id) {
                    Some(k) => {
                        let mut entry = obligations[k];
                        entry.outstanding = UsdCents {
                            cents: entry.outstanding.cents - amount.cents,
                        };
                        obligations.set(k, entry);
                    },
                    None => {
                        return None;
                    },
                }
            },
            RepaymentPlanEvent::ObligationDue { id }
            | RepaymentPlanEvent::ObligationOverdue { id }
            | RepaymentPlanEvent::ObligationDefaulted { id }
            | RepaymentPlanEvent::ObligationCompleted { id } => {
                match find_obligation(&obligations, id) {
                    Some(k) => {
                        let mut entry = obligations[k];
                        entry.status =
                            match *event {
                                RepaymentPlanEvent::ObligationDue { .. } => RepaymentStatus::Due,
                                RepaymentPlanEvent::ObligationOverdue { .. } => RepaymentStatus::Overdue,
                                RepaymentPlanEvent::ObligationDefaulted { .. } => RepaymentStatus::Defaulted,
                                _ => RepaymentStatus::Paid,
                            };
                        obligations.set(k, entry);
                    },
                    None => {
                        return None;
                    },
                }
            },
            RepaymentPlanEvent::Other => {
                return None;
            },
        }
        Some(obligations)
    }

    /// The plan becomes the recorded obligations (or, when there are none,
    /// the planned disbursals) followed by the planned interest payments,
    /// all in plan order.
    pub fn set_entries(
        &mut self,
        obligations: Vec<CreditFacilityRepaymentPlanEntry>,
        planned_disbursals: Vec<CreditFacilityRepaymentPlanEntry>,
        planned_interest: Vec<CreditFacilityRepaymentPlanEntry>,
    )
        ensures
            final(self).entries@ == plan_order(
                (if obligations@.len() > 0 {
                    obligations@
                } else {
                    planned_disbursals@
                }) + planned_interest@,
            ),
            all_recorded(obligations@) && all_upcoming(planned_disbursals@, RepaymentType::Disbursal)
                && all_upcoming(planned_interest@, RepaymentType::Interest) ==> {
                &&& upcoming_without_obligation(final(self).entries@)
                &&& no_upcoming_disbursal_beside_recorded(final(self).entries@)
            },
            final(self).facility_amount == old(self).facility_amount,
            final(self).activated_at == old(self).activated_at,
            final(self).last_interest_accrual_on == old(self).last_interest_accrual_on,
            final(self).last_updated_on_sequence == old(self).last_updated_on_sequence,
    {
        proof {
            if all_recorded(obligations@) && all_upcoming(
                planned_disbursals@,
                RepaymentType::Disbursal,
            ) && all_upcoming(planned_interest@, RepaymentType::Interest) {
                plan_shape_from_parts(obligations@, planned_disbursals@, planned_interest@);
            }
        }
        let mut all = if obligations.len() > 0 {
            obligations
        } else {
            planned_disbursals
        };
        let mut rest = planned_interest;
        all.append(&mut rest);
        self.entries = sort_into_plan_order(all);
    }

    /// Brings the plan up to date with one event. The event's sequence
    /// number is always recorded. An event the plan ignores changes nothing
    /// else and gives `false`. Otherwise the recorded obligations are updated
    /// and the plan becomes them (or, while there are none, the planned
    /// disbursals: the structuring fee unless it is zero, then the facility's
    /// amount, due at `maturity`) followed by one interest payment still to
    /// come per period, `interest[i]` for `periods[i]`, all in plan order.
    /// The fee, the maturity day, the remaining periods and their interest
    /// come from the facility's terms.
    pub fn process_event(
        &mut self,
        sequence: u64,
        event: &RepaymentPlanEvent,
        structuring_fee: UsdCents,
        maturity: EffectiveDate,
        periods: &Vec<InterestPeriod>,
        interest: &Vec<UsdCents>,
    ) -> (processed: bool)
        requires
            repayment_within_outstanding(recorded_obligations(old(self).entries@), *event),
            periods@.len() == interest@.len(),
        ensures
            final(self).last_updated_on_sequence == sequence,
            processed <==> obligations_after(recorded_obligations(old(self).entries@), *event) is Some,
            !processed ==> {
                &&& final(self).entries@ == old(self).entries@
                &&& final(self).facility_amount == old(self).facility_amount
                &&& final(self).activated_at == old(self).activated_at
                &&& final(self).last_interest_accrual_on == old(self).last_interest_accrual_on
            },
            processed ==> {
                let after = obligations_after(recorded_obligations(old(self).entries@), *event)->0;
                let planned_interest = still_to_accrue(
                    interest_plan(periods@, interest@),
                    final(self).last_interest_accrual_on,
                );
                &&& final(self).last_interest_accrual_on == interest_accrual_after(
                    old(self).last_interest_accrual_on,
                    *event,
                )
                &&& exists|activated_at: Timestamp|
                    {
                        &&& (final(self).activated_at matches Some(a) ==> activated_at == a)
                        &&& final(self).entries@ == plan_after(
                            after,
                            disbursal_plan(
                                structuring_fee,
                                final(self).facility_amount,
                                maturity,
                                activated_at,
                            ),
                            planned_interest,
                        )
                        &&& final(self).entries@.to_multiset() =~= ((if after.len() > 0 {
                            after
                        } else {
                            disbursal_plan(
                                structuring_fee,
                                final(self).facility_amount,
                                maturity,
                                activated_at,
                            )
                        }) + planned_interest).to_multiset()
                    }
                &&& in_plan_order(final(self).entries@)
                &&& upcoming_without_obligation(final(self).entries@)
                &&& no_upcoming_disbursal_beside_recorded(final(self).entries@)
            },
            final(self).facility_amount == (match *event {
                RepaymentPlanEvent::FacilityCreated { amount } => amount,
                _ => old(self).facility_amount,
            }),
            final(self).activated_at == (match *event {
                RepaymentPlanEvent::FacilityActivated { activated_at } => Some(activated_at),
                _ => old(self).activated_at,
            }),
    {
        let obligations = match self.apply_obligation_event(sequence, event) {
            Some(o) => o,
            None => {
                return false;
            },
        };
        let activated_at = self.activation_instant();
        let disbursals = self.planned_disbursals(structuring_fee, maturity, activated_at);
        let planned_interest = drop_accrued(
            planned_interest_entries(periods, interest),
            self.last_interest_accrual_on,
        );
        let ghost base = if obligations@.len() > 0 {
            obligations@
        } else {
            disbursals@
        };
        proof {
            plan_order_sorts(base + planned_interest@);
        }
        self.set_entries(obligations, disbursals, planned_interest);
        true
    }

    /// The instant the plan counts from: the facility's activation, or the
    /// current instant before it is activated.
    pub fn activation_instant(&self) -> (t: Timestamp)
        ensures
            self.activated_at matches Some(a) ==> t == a,
    {
        match self.activated_at {
            Some(a) => a,
            None => now(),
        }
    }

    /// The disbursals still to come before any obligation is recorded: the
    /// structuring fee (when it is not zero), then the facility's amount, both
    /// due at maturity and recorded at `activated_at`.
    pub fn planned_disbursals(
        &self,
        structuring_fee: UsdCents,
        maturity: EffectiveDate,
        activated_at: Timestamp,
    ) -> (r: Vec<CreditFacilityRepaymentPlanEntry>)
        ensures
            r@ == disbursal_plan(structuring_fee, self.facility_amount, maturity, activated_at),
            all_upcoming(r@, RepaymentType::Disbursal),
    {
        let activated_on = day_of_instant(activated_at);
        let mut r: Vec<CreditFacilityRepaymentPlanEntry> = Vec::new();
        if !structuring_fee.is_zero() {
            r.push(upcoming_disbursal_entry(structuring_fee, maturity, activated_at, activated_on));
        }
        r.push(upcoming_disbursal_entry(self.facility_amount, maturity, activated_at, activated_on));
        r
    }
}

fn upcoming_disbursal_entry(
    amount: UsdCents,
    maturity: EffectiveDate,
    activated_at: Timestamp,
    activated_on: EffectiveDate,
) -> (e: CreditFacilityRepaymentPlanEntry)
    requires
        activated_on == day_of(activated_at),
    ensures
        e == upcoming_disbursal(amount, maturity, activated_at),
{
    CreditFacilityRepaymentPlanEntry {
        repayment_type: RepaymentType::Disbursal,
        obligation_id: None,
        status: RepaymentStatus::Upcoming,
        initial: amount,
        outstanding: amount,
        due_at: maturity,
        overdue_at: None,
        defaulted_at: None,
        recorded_at: activated_at,
        effective: activated_on,
    }
}

/// The interest payments still to come: one per period, due at the end of
/// the period, with the interest the facility's terms give for it.
pub fn planned_interest_entries(periods: &Vec<InterestPeriod>, interest: &Vec<UsdCents>) -> (r: Vec<
    CreditFacilityRepaymentPlanEntry,
>)
    requires
        periods@.len() == interest@.len(),
    ensures
        r@ == interest_plan(periods@, interest@),
        all_upcoming(r@, RepaymentType::Interest),
{
    let mut r: Vec<CreditFacilityRepaymentPlanEntry> = Vec::new();
    let n = periods.len();
    let mut i: usize = 0;
    while i < n
        invariant
            n == periods@.len(),
            n == interest@.len(),
            i <= n,
            r@ =~= interest_plan(periods@.take(i as int), interest@.take(i as int)),
        decreases n - i,
    {
        let p = periods[i];
        let amount = interest[i];
        r.push(
            CreditFacilityRepaymentPlanEntry {
                repayment_type: RepaymentType::Interest,
                obligation_id: None,
                status: RepaymentStatus::Upcoming,
                initial: amount,
                outstanding: amount,
                due_at: p.end_date,
                overdue_at: None,
                defaulted_at: None,
                recorded_at: p.end,
                effective: p.end_date,
            },
        );
        i += 1;
        assert(r@ =~= interest_plan(periods@.take(i as int), interest@.take(i as int)));
    }
    assert(periods@.take(n as int) =~= periods@);
    assert(interest@.take(n as int) =~= interest@);
    r
}

/// What is outstanding on the disbursal repayments, summed.
pub fn disbursed_outstanding(entries: &Vec<CreditFacilityRepaymentPlanEntry>) -> (r: UsdCents)
    requires
        disbursed_sum(entries@) <= u64::MAX,
    ensures
        r.cents == disbursed_sum(entries@),
{
    let mut total: u64 = 0;
    let n = entries.len();
    let mut i: usize = 0;
    while i < n
        invariant
            n == entries.len(),
            i <= n,
            total == disbursed_sum(entries@.take(i as int)),
            disbursed_sum(entries@) <= u64::MAX,
        decreases n - i,
    {
        proof {
            assert(entries@.take(i + 1).drop_last() =~= entries@.take(i as int));
            assert(entries@.take(i + 1).last() == entries@[i as int]);
            lemma_disbursed_sum_prefix(entries@, i + 1);
        }
        if entries[i].repayment_type == RepaymentType::Disbursal {
            total = total + entries[i].outstanding.cents;
        }
        i += 1;
    }
    assert(entries@.take(n as int) =~= entries@);
    UsdCents { cents: total }
}

proof fn lemma_disbursed_sum_prefix(entries: Seq<CreditFacilityRepaymentPlanEntry>, k: int)
    requires
        0 <= k <= entries.len(),
    ensures
        disbursed_sum(entries.take(k)) <= disbursed_sum(entries),
    decreases entries.len() - k,
{
    if k < entries.len() {
        lemma_disbursed_sum_prefix(entries, k + 1);
        assert(entries.take(k + 1).drop_last() =~= entries.take(k));
    } else {
        assert(entries.take(k) =~= entries);
    }
}

proof fn lemma_obligation_position_bound(entries: Seq<CreditFacilityRepaymentPlanEntry>, id: ObligationId)
    ensures
        obligation_position(entries, id) matches Some(k) ==> 0 <= k < entries.len(),
    decreases entries.len(),
{
    if entries.len() > 0 && entries[0].obligation_id != Some(id) {
        lemma_obligation_position_bound(entries.drop_first(), id);
    }
}

/// An obligation event never drops or reorders a recorded obligation, nor
/// changes what it is for: every obligation keeps its place, id, type, due
/// day and initial amount, and at most one obligation is added, at the end.
pub proof fn obligation_events_keep_obligations(
    obligations: Seq<CreditFacilityRepaymentPlanEntry>,
    event: RepaymentPlanEvent,
)
    ensures
        obligations_after(obligations, event) matches Some(after) ==> {
            &&& obligations.len() <= after.len() <= obligations.len() + 1
            &&& forall|i: int|
                0 <= i < obligations.len() ==> {
                    &&& (#[trigger] after[i]).obligation_id == obligations[i].obligation_id
                    &&& after[i].repayment_type == obligations[i].repayment_type
                    &&& after[i].due_at == obligations[i].due_at
                    &&& after[i].initial == obligations[i].initial
                }
        },
{
    match event {
        RepaymentPlanEvent::FacilityRepaymentRecorded { obligation_id, .. } => {
            lemma_obligation_position_bound(obligations, obligation_id);
        },
        RepaymentPlanEvent::ObligationDue { id }
        | RepaymentPlanEvent::ObligationOverdue { id }
        | RepaymentPlanEvent::ObligationDefaulted { id }
        | RepaymentPlanEvent::ObligationCompleted { id } => {
            lemma_obligation_position_bound(obligations, id);
        },
        _ => {},
    }
}

} // verus!
