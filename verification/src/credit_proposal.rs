//! Credit facility proposals: an event-sourced entity that records the
//! approval decision, the completion and how well the requested facility is
//! covered by collateral.

use vstd::prelude::*;

use crate::cvl::CVLPct;
use crate::decimal::{dec_eq, less_value, Dec};
use crate::primitives::{
    tagged_id, uuid_text, ApprovalProcessId, AuditInfo, BuilderError, CalaAccountId, CollateralId,
    CreditFacilityProposalId, CustomerId, EntityError, Idempotent, LedgerTxId, Satoshis, UsdCents,
};

verus! {

/// Whether the collateral covers the facility up to the margin-call ratio.
#[derive(Clone, Copy, Debug, PartialEq, Eq, Structural)]
pub enum CreditFacilityProposalCollateralizationState {
    FullyCollateralized,
    UnderCollateralized,
}

impl Default for CreditFacilityProposalCollateralizationState {
    fn default() -> (s: Self)
        ensures
            s == CreditFacilityProposalCollateralizationState::UnderCollateralized,
    {
        CreditFacilityProposalCollateralizationState::UnderCollateralized
    }
}

/// The price of one bitcoin.
#[derive(Clone, Copy, Debug, PartialEq, Eq, Structural)]
pub struct PriceOfOneBTC {
    pub usd: UsdCents,
}

/// The ledger accounts of a proposal.
#[derive(Clone, Copy, Debug, PartialEq, Eq, Structural)]
pub struct CreditFacilityProposalAccountIds {
    pub facility_account_id: CalaAccountId,
    pub collateral_account_id: CalaAccountId,
}

/// The terms of the requested facility that the proposal's rules read.
#[derive(Clone, Copy, Debug, PartialEq)]
pub struct TermValues {
    /// The ratio below which the facility counts as under-collateralized.
    pub margin_call_cvl: CVLPct,
}

/// What the ledger reports of a proposal's balances at a given price: the
/// collateral held, the ratio of the collateral's value to the facility
/// amount, and the collateralization ratio.
#[derive(Clone, Copy, Debug)]
pub struct CreditFacilityProposalBalanceSummary {
    pub collateral: Satoshis,
    pub facility_amount_cvl: CVLPct,
    pub collateralization_ratio: Dec,
}

/// What the ledger needs to post the creation of a proposal.
#[derive(Debug)]
pub struct CreditFacilityProposalCreation {
    pub tx_id: LedgerTxId,
    pub tx_ref: String,
    pub credit_facility_proposal_account_ids: CreditFacilityProposalAccountIds,
    pub facility_amount: UsdCents,
}

#[derive(Debug)]
pub enum CreditFacilityProposalEvent {
    Initialized {
        id: CreditFacilityProposalId,
        ledger_tx_id: LedgerTxId,
        customer_id: CustomerId,
        collateral_id: CollateralId,
        terms: TermValues,
        amount: UsdCents,
        account_ids: CreditFacilityProposalAccountIds,
        approval_process_id: ApprovalProcessId,
        audit_info: AuditInfo,
    },
    ApprovalProcessConcluded { approval_process_id: ApprovalProcessId, approved: bool },
    CollateralizationStateChanged {
        collateralization_state: CreditFacilityProposalCollateralizationState,
        collateral: Satoshis,
        price: PriceOfOneBTC,
    },
    CollateralizationRatioChanged { collateralization_ratio: Dec },
    Completed { approved: bool },
}

/// The newest `Initialized` event, if any.
pub open spec fn last_initialized(events: Seq<CreditFacilityProposalEvent>) -> Option<
    CreditFacilityProposalEvent,
>
    decreases events.len(),
{
    if events.len() == 0 {
        None
    } else {
        match events.last() {
            CreditFacilityProposalEvent::Initialized { .. } => Some(events.last()),
            _ => last_initialized(events.drop_last()),
        }
    }
}

/// The ratio of the newest `CollateralizationRatioChanged` event, zero if
/// there is none.
pub open spec fn last_ratio(events: Seq<CreditFacilityProposalEvent>) -> Dec
    decreases events.len(),
{
    if events.len() == 0 {
        Dec { mantissa: 0, scale: 0 }
    } else {
        match events.last() {
            CreditFacilityProposalEvent::CollateralizationRatioChanged {
                collateralization_ratio,
            } => collateralization_ratio,
            _ => last_ratio(events.drop_last()),
        }
    }
}

/// The state of the newest `CollateralizationStateChanged` event,
/// under-collateralized if there is none.
pub open spec fn last_state(events: Seq<CreditFacilityProposalEvent>)
    -> CreditFacilityProposalCollateralizationState
    decreases events.len(),
{
    if events.len() == 0 {
        CreditFacilityProposalCollateralizationState::UnderCollateralized
    } else {
        match events.last() {
            CreditFacilityProposalEvent::CollateralizationStateChanged {
                collateralization_state,
                ..
            } => collateralization_state,
            _ => last_state(events.drop_last()),
        }
    }
}

pub open spec fn has_concluded(events: Seq<CreditFacilityProposalEvent>) -> bool {
    exists|i: int| 0 <= i < events.len() && #[trigger] events[i] is ApprovalProcessConcluded
}

pub open spec fn has_completed(events: Seq<CreditFacilityProposalEvent>) -> bool {
    exists|i: int| 0 <= i < events.len() && #[trigger] events[i] is Completed
}

/// `a >= b` for ratios: infinity is at least every ratio, a finite ratio is
/// below infinity, finite ratios compare as numbers (when both can be held
/// by a decimal).
pub open spec fn cvl_at_least(a: CVLPct, b: CVLPct) -> bool {
    match (a, b) {
        (CVLPct::Infinite, _) => true,
        (CVLPct::Finite(_), CVLPct::Infinite) => false,
        (CVLPct::Finite(x), CVLPct::Finite(y)) => x.is_valid() && y.is_valid() && !less_value(
            x,
            y,
        ),
    }
}

/// The state the balances put the proposal in.
pub open spec fn computed_state(terms: TermValues, balances: CreditFacilityProposalBalanceSummary)
    -> CreditFacilityProposalCollateralizationState {
    if cvl_at_least(balances.facility_amount_cvl, terms.margin_call_cvl) {
        CreditFacilityProposalCollateralizationState::FullyCollateralized
    } else {
        CreditFacilityProposalCollateralizationState::UnderCollateralized
    }
}

/// The events after a collateralization update: a ratio event if the ratio
/// differs from the last one, then a state event if the state differs from
/// the last one.
pub open spec fn collateralization_events(
    events: Seq<CreditFacilityProposalEvent>,
    terms: TermValues,
    price: PriceOfOneBTC,
    balances: CreditFacilityProposalBalanceSummary,
) -> Seq<CreditFacilityProposalEvent> {
    let ratio = balances.collateralization_ratio;
    let with_ratio = if dec_eq(last_ratio(events), ratio) {
        events
    } else {
        events.push(
            CreditFacilityProposalEvent::CollateralizationRatioChanged {
                collateralization_ratio: ratio,
            },
        )
    };
    let state = computed_state(terms, balances);
    if state != last_state(events) {
        with_ratio.push(
            CreditFacilityProposalEvent::CollateralizationStateChanged {
                collateralization_state: state,
                collateral: balances.collateral,
                price,
            },
        )
    } else {
        with_ratio
    }
}

/// What a collateralization update answers: the new state if it changed;
/// executed without a state if only the ratio changed; ignored otherwise.
pub open spec fn collateralization_outcome(
    events: Seq<CreditFacilityProposalEvent>,
    terms: TermValues,
    balances: CreditFacilityProposalBalanceSummary,
) -> Idempotent<Option<CreditFacilityProposalCollateralizationState>> {
    let state = computed_state(terms, balances);
    if state != last_state(events) {
        Idempotent::Executed(Some(state))
    } else if !dec_eq(last_ratio(events), balances.collateralization_ratio) {
        Idempotent::Executed(None)
    } else {
        Idempotent::Ignored
    }
}

proof fn lemma_push_other(events: Seq<CreditFacilityProposalEvent>, e: CreditFacilityProposalEvent)
    ensures
        !(e is Initialized) ==> last_initialized(events.push(e)) == last_initialized(events),
        !(e is CollateralizationRatioChanged) ==> last_ratio(events.push(e)) == last_ratio(events),
        !(e is CollateralizationStateChanged) ==> last_state(events.push(e)) == last_state(events),
        e matches CreditFacilityProposalEvent::CollateralizationRatioChanged {
            collateralization_ratio,
        } ==> last_ratio(events.push(e)) == collateralization_ratio,
        e matches CreditFacilityProposalEvent::CollateralizationStateChanged {
            collateralization_state,
            ..
        } ==> last_state(events.push(e)) == collateralization_state,
{
    assert(events.push(e).drop_last() =~= events);
}

pub struct CreditFacilityProposal {
    pub id: CreditFacilityProposalId,
    pub approval_process_id: ApprovalProcessId,
    pub account_ids: CreditFacilityProposalAccountIds,
    pub customer_id: CustomerId,
    pub collateral_id: CollateralId,
    pub amount: UsdCents,
    pub terms: TermValues,
    pub events: Vec<CreditFacilityProposalEvent>,
}

impl CreditFacilityProposal {
    /// The identifiers, amount, terms and accounts are those of the newest
    /// `Initialized` event.
    pub open spec fn is_replay_of(&self, events: Seq<CreditFacilityProposalEvent>) -> bool {
        match last_initialized(events) {
            Some(
                CreditFacilityProposalEvent::Initialized {
                    id,
                    customer_id,
                    collateral_id,
                    terms,
                    amount,
                    account_ids,
                    approval_process_id,
                    ..
                },
            ) => {
                &&& self.id == id
                &&& self.customer_id == customer_id
                &&& self.collateral_id == collateral_id
                &&& self.terms == terms
                &&& self.amount == amount
                &&& self.account_ids == account_ids
                &&& self.approval_process_id == approval_process_id
            },
            _ => false,
        }
    }

    pub open spec fn is_consistent(&self) -> bool {
        self.is_replay_of(self.events@)
    }

    /// Rebuilds a proposal from its events. Fails when no event initialised
    /// it.
    pub fn try_from_events(events: Vec<CreditFacilityProposalEvent>) -> (r: Result<
        CreditFacilityProposal,
        EntityError,
    >)
        ensures
            r is Ok <==> last_initialized(events@) is Some,
            r matches Ok(p) ==> p.is_replay_of(events@) && p.events@ == events@,
    {
        let mut init: Option<
            (
                CreditFacilityProposalId,
                CustomerId,
                CollateralId,
                TermValues,
                UsdCents,
                CreditFacilityProposalAccountIds,
                ApprovalProcessId,
            ),
        > = None;
        let n = events.len();
        let mut i: usize = 0;
        while i < n
            invariant
                n == events.len(),
                i <= n,
                init is Some <==> last_initialized(events@.take(i as int)) is Some,
                init matches Some(t) ==> (match last_initialized(events@.take(i as int)) {
                    Some(
                        CreditFacilityProposalEvent::Initialized {
                            id,
                            customer_id,
                            collateral_id,
                            terms,
                            amount,
                            account_ids,
                            approval_process_id,
                            ..
                        },
                    ) => t == (
                        id,
                        customer_id,
                        collateral_id,
                        terms,
                        amount,
                        account_ids,
                        approval_process_id,
                    ),
                    _ => false,
                }),
            decreases n - i,
        {
            assert(events@.take(i + 1).drop_last() =~= events@.take(i as int));
            assert(events@.take(i + 1).last() == events@[i as int]);
            if let CreditFacilityProposalEvent::Initialized {
                id,
                customer_id,
                collateral_id,
                terms,
                amount,
                account_ids,
                approval_process_id,
                ..
            } = &events[i] {
                init = Some(
                    (
                        *id,
                        *customer_id,
                        *collateral_id,
                        *terms,
                        *amount,
                        *account_ids,
                        *approval_process_id,
                    ),
                );
            }
            i += 1;
        }
        assert(events@.take(n as int) =~= events@);
        match init {
            Some(t) => {
                let (id, customer_id, collateral_id, terms, amount, account_ids, approval_process_id) =
                    t;
                Ok(
                    CreditFacilityProposal {
                        id,
                        approval_process_id,
                        account_ids,
                        customer_id,
                        collateral_id,
                        amount,
                        terms,
                        events,
                    },
                )
            },
            None => Err(EntityError::UninitializedField),
        }
    }

    /// What the ledger needs to post the proposal's creation, from the
    /// `Initialized` event that opens its history; the transaction reference
    /// is the proposal's id followed by `-create`.
    pub fn creation_data(&self) -> (c: CreditFacilityProposalCreation)
        requires
            self.events@.len() > 0,
            self.events@[0] is Initialized,
        ensures
            self.events@[0] matches CreditFacilityProposalEvent::Initialized {
                ledger_tx_id,
                account_ids,
                amount,
                ..
            } && c.tx_id == ledger_tx_id && c.credit_facility_proposal_account_ids == account_ids
                && c.facility_amount == amount,
            c.tx_ref@ == uuid_text(self.id.bits) + "-create"@,
    {
        let tx_ref = tagged_id("", self.id, "-create");
        proof {
            reveal_strlit("");
        }
        assert(""@ + uuid_text(self.id.bits) =~= uuid_text(self.id.bits));
        match &self.events[0] {
            CreditFacilityProposalEvent::Initialized { ledger_tx_id, account_ids, amount, .. } => {
                CreditFacilityProposalCreation {
                    tx_id: *ledger_tx_id,
                    tx_ref,
                    credit_facility_proposal_account_ids: *account_ids,
                    facility_amount: *amount,
                }
            },
            _ => unreached(),
        }
    }

    /// The ratio of the newest `CollateralizationRatioChanged` event, zero if
    /// there is none.
    pub fn last_collateralization_ratio(&self) -> (d: Dec)
        ensures
            d == last_ratio(self.events@),
    {
        let mut i: usize = self.events.len();
        assert(self.events@.take(i as int) =~= self.events@);
        while i > 0
            invariant
                i <= self.events@.len(),
                last_ratio(self.events@) == last_ratio(self.events@.take(i as int)),
            decreases i,
        {
            assert(self.events@.take(i as int).drop_last() =~= self.events@.take(i - 1));
            assert(self.events@.take(i as int).last() == self.events@[i - 1]);
            if let CreditFacilityProposalEvent::CollateralizationRatioChanged {
                collateralization_ratio,
            } = &self.events[i - 1] {
                return *collateralization_ratio;
            }
            i -= 1;
        }
        Dec::zero()
    }

    /// The state of the newest `CollateralizationStateChanged` event,
    /// under-collateralized if there is none.
    pub fn last_collateralization_state(&self) -> (s: CreditFacilityProposalCollateralizationState)
        ensures
            s == last_state(self.events@),
    {
        let mut i: usize = self.events.len();
        assert(self.events@.take(i as int) =~= self.events@);
        while i > 0
            invariant
                i <= self.events@.len(),
                last_state(self.events@) == last_state(self.events@.take(i as int)),
            decreases i,
        {
            assert(self.events@.take(i as int).drop_last() =~= self.events@.take(i - 1));
            assert(self.events@.take(i as int).last() == self.events@[i - 1]);
            if let CreditFacilityProposalEvent::CollateralizationStateChanged {
                collateralization_state,
                ..
            } = &self.events[i - 1] {
                return *collateralization_state;
            }
            i -= 1;
        }
        CreditFacilityProposalCollateralizationState::UnderCollateralized
    }

    /// Records the collateralization ratio and state that the balances give,
    /// each only if it differs from the last one recorded.
    pub fn update_collateralization(
        &mut self,
        price: PriceOfOneBTC,
        balances: CreditFacilityProposalBalanceSummary,
    ) -> (r: Idempotent<Option<CreditFacilityProposalCollateralizationState>>)
        ensures
            final(self).events@ == collateralization_events(
                old(self).events@,
                old(self).terms,
                price,
                balances,
            ),
            r == collateralization_outcome(old(self).events@, old(self).terms, balances),
            final(self).id == old(self).id,
            final(self).terms == old(self).terms,
            old(self).is_consistent() ==> final(self).is_consistent(),
    {
        let ghost old_events = self.events@;
        let ratio_changed = self.update_collateralization_ratio(&balances).did_execute();
        let is_fully_collateralized = balances.facility_amount_cvl >= self.terms.margin_call_cvl;
        let state = if is_fully_collateralized {
            CreditFacilityProposalCollateralizationState::FullyCollateralized
        } else {
            CreditFacilityProposalCollateralizationState::UnderCollateralized
        };
        assert(state == computed_state(self.terms, balances));
        if state != self.last_collateralization_state() {
            let e = CreditFacilityProposalEvent::CollateralizationStateChanged {
                collateralization_state: state,
                collateral: balances.collateral,
                price,
            };
            proof {
                lemma_push_other(self.events@, e);
            }
            self.events.push(e);
            Idempotent::Executed(Some(state))
        } else if ratio_changed {
            Idempotent::Executed(None)
        } else {
            Idempotent::Ignored
        }
    }

    fn update_collateralization_ratio(&mut self, balances: &CreditFacilityProposalBalanceSummary) -> (r:
        Idempotent<()>)
        ensures
            r is Ignored <==> dec_eq(last_ratio(old(self).events@), balances.collateralization_ratio),
            r is Ignored ==> final(self).events@ == old(self).events@,
            r is Executed ==> final(self).events@ == old(self).events@.push(
                CreditFacilityProposalEvent::CollateralizationRatioChanged {
                    collateralization_ratio: balances.collateralization_ratio,
                },
            ),
            last_state(final(self).events@) == last_state(old(self).events@),
            final(self).id == old(self).id,
            final(self).terms == old(self).terms,
            old(self).is_consistent() ==> final(self).is_consistent(),
    {
        let ratio = balances.collateralization_ratio;
        if self.last_collateralization_ratio() == ratio {
            return Idempotent::Ignored;
        }
        let e = CreditFacilityProposalEvent::CollateralizationRatioChanged {
            collateralization_ratio: ratio,
        };
        proof {
            lemma_push_other(self.events@, e);
        }
        self.events.push(e);
        Idempotent::Executed(())
    }

    /// Whether the approval process has concluded.
    pub fn is_approval_process_concluded(&self) -> (b: bool)
        ensures
            b == has_concluded(self.events@),
    {
        let mut i: usize = 0;
        while i < self.events.len()
            invariant
                i <= self.events.len(),
                forall|j: int| 0 <= j < i ==> !(#[trigger] self.events@[j] is ApprovalProcessConcluded),
            decreases self.events.len() - i,
        {
            if let CreditFacilityProposalEvent::ApprovalProcessConcluded { .. } = &self.events[i] {
                return true;
            }
            i += 1;
        }
        false
    }

    fn is_completed(&self) -> (b: bool)
        ensures
            b == has_completed(self.events@),
    {
        let mut i: usize = 0;
        while i < self.events.len()
            invariant
                i <= self.events.len(),
                forall|j: int| 0 <= j < i ==> !(#[trigger] self.events@[j] is Completed),
            decreases self.events.len() - i,
        {
            if let CreditFacilityProposalEvent::Completed { .. } = &self.events[i] {
                return true;
            }
            i += 1;
        }
        false
    }

    /// Records the outcome of the approval process, unless one was ever
    /// recorded. The event carries the proposal's id as the process id.
    pub fn approval_process_concluded(&mut self, approved: bool) -> (r: Idempotent<()>)
        ensures
            r is Ignored <==> has_concluded(old(self).events@),
            r is Ignored ==> final(self).events@ == old(self).events@,
            r is Executed ==> final(self).events@ == old(self).events@.push(
                CreditFacilityProposalEvent::ApprovalProcessConcluded {
                    approval_process_id: old(self).id,
                    approved,
                },
            ),
            final(self).id == old(self).id,
            old(self).is_consistent() ==> final(self).is_consistent(),
    {
        if self.is_approval_process_concluded() {
            return Idempotent::Ignored;
        }
        let e = CreditFacilityProposalEvent::ApprovalProcessConcluded {
            approval_process_id: self.id,
            approved,
        };
        proof {
            lemma_push_other(self.events@, e);
        }
        self.events.push(e);
        Idempotent::Executed(())
    }

    /// Records the completion of the proposal, unless it was ever completed.
    pub fn complete(&mut self, approved: bool) -> (r: Idempotent<()>)
        ensures
            r is Ignored <==> has_completed(old(self).events@),
            r is Ignored ==> final(self).events@ == old(self).events@,
            r is Executed ==> final(self).events@ == old(self).events@.push(
                CreditFacilityProposalEvent::Completed { approved },
            ),
            final(self).id == old(self).id,
            old(self).is_consistent() ==> final(self).is_consistent(),
    {
        if self.is_completed() {
            return Idempotent::Ignored;
        }
        let e = CreditFacilityProposalEvent::Completed { approved };
        proof {
            lemma_push_other(self.events@, e);
        }
        self.events.push(e);
        Idempotent::Executed(())
    }
}

/// What one page of the periodic collateralization update decided.
pub struct CollateralizationPage {
    /// The proposals of the page, updated.
    pub proposals: Vec<CreditFacilityProposal>,
    /// For each proposal, whether its update recorded events (and so must
    /// be saved).
    pub changed: Vec<bool>,
    /// Whether to go on with the next page: some proposal of this page
    /// changed and there is a next page.
    pub continue_with_next_page: bool,
}

/// One page of the periodic collateralization update at a price: each
/// proposal gets the balances the ledger reported for it. Paging stops at
/// the first page on which nothing changed.
pub fn update_collateralization_page(
    proposals: Vec<CreditFacilityProposal>,
    price: PriceOfOneBTC,
    balances: &Vec<CreditFacilityProposalBalanceSummary>,
    has_next_page: bool,
) -> (page: CollateralizationPage)
    requires
        proposals@.len() == balances@.len(),
    ensures
        page.proposals@.len() == proposals@.len(),
        page.changed@.len() == proposals@.len(),
        forall|i: int|
            0 <= i < proposals@.len() ==> {
                let before = proposals@[i];
                let after = #[trigger] page.proposals@[i];
                &&& after.events@ == collateralization_events(
                    before.events@,
                    before.terms,
                    price,
                    balances@[i],
                )
                &&& page.changed@[i] == collateralization_outcome(
                    before.events@,
                    before.terms,
                    balances@[i],
                ) is Executed
                &&& after.id == before.id
                &&& after.terms == before.terms
                &&& (before.is_consistent() ==> after.is_consistent())
            },
        page.continue_with_next_page == (has_next_page && exists|i: int|
            0 <= i < page.changed@.len() && #[trigger] page.changed@[i]),
{
    let ghost inputs = proposals@;
    let mut remaining = proposals;
    let mut updated: Vec<CreditFacilityProposal> = Vec::new();
    let mut changed: Vec<bool> = Vec::new();
    let mut at_least_one = false;
    let n = remaining.len();
    let mut k: usize = 0;
    while remaining.len() > 0
        invariant
            n == inputs.len(),
            n == balances@.len(),
            remaining@.len() + k == n,
            remaining@ == inputs.skip(k as int),
            updated@.len() == k,
            changed@.len() == k,
            forall|i: int|
                0 <= i < k ==> {
                    let before = inputs[i];
                    let after = #[trigger] updated@[i];
                    &&& after.events@ == collateralization_events(
                        before.events@,
                        before.terms,
                        price,
                        balances@[i],
                    )
                    &&& changed@[i] == collateralization_outcome(
                        before.events@,
                        before.terms,
                        balances@[i],
                    ) is Executed
                    &&& after.id == before.id
                    &&& after.terms == before.terms
                    &&& (before.is_consistent() ==> after.is_consistent())
                },
            at_least_one == exists|i: int| 0 <= i < k && #[trigger] changed@[i],
        decreases remaining@.len(),
    {
        let mut proposal = remaining.remove(0);
        assert(proposal == inputs[k as int]);
        assert(remaining@ =~= inputs.skip(k + 1));
        let outcome = proposal.update_collateralization(price, balances[k]);
        let did = outcome.did_execute();
        let ghost old_changed = changed@;
        updated.push(proposal);
        changed.push(did);
        if did {
            at_least_one = true;
        }
        proof {
            assert(changed@[k as int] == did);
            assert(forall|i: int| 0 <= i < k ==> changed@[i] == old_changed[i]);
            if at_least_one && !did {
                let w = choose|i: int| 0 <= i < k && #[trigger] old_changed[i];
                assert(changed@[w]);
            }
        }
        k += 1;
    }
    CollateralizationPage {
        proposals: updated,
        changed,
        continue_with_next_page: has_next_page && at_least_one,
    }
}

/// Updating the collateralization twice with the same price and balances
/// changes nothing the second time: the second update is ignored and records
/// no event.
pub proof fn collateralization_update_is_idempotent(
    events: Seq<CreditFacilityProposalEvent>,
    terms: TermValues,
    price: PriceOfOneBTC,
    balances: CreditFacilityProposalBalanceSummary,
)
    ensures
        ({
            let once = collateralization_events(events, terms, price, balances);
            &&& collateralization_outcome(once, terms, balances) is Ignored
            &&& collateralization_events(once, terms, price, balances) == once
        }),
{
    let ratio = balances.collateralization_ratio;
    let state = computed_state(terms, balances);
    let r = CreditFacilityProposalEvent::CollateralizationRatioChanged {
        collateralization_ratio: ratio,
    };
    let with_ratio = if dec_eq(last_ratio(events), ratio) {
        events
    } else {
        events.push(r)
    };
    lemma_push_other(events, r);
    assert(last_ratio(with_ratio) == ratio || dec_eq(last_ratio(with_ratio), ratio));
    assert(last_state(with_ratio) == last_state(events));
    let s = CreditFacilityProposalEvent::CollateralizationStateChanged {
        collateralization_state: state,
        collateral: balances.collateral,
        price,
    };
    lemma_push_other(with_ratio, s);
    let once = collateralization_events(events, terms, price, balances);
    assert(last_state(once) == state);
    assert(dec_eq(last_ratio(once), ratio));
}

/// The approval process concludes at most once: once recorded, every
/// further conclusion is ignored.
pub proof fn proposal_approval_concludes_once(
    events: Seq<CreditFacilityProposalEvent>,
    approval_process_id: ApprovalProcessId,
    approved: bool,
)
    ensures
        has_concluded(
            events.push(
                CreditFacilityProposalEvent::ApprovalProcessConcluded {
                    approval_process_id,
                    approved,
                },
            ),
        ),
{
    let e = CreditFacilityProposalEvent::ApprovalProcessConcluded { approval_process_id, approved };
    assert(events.push(e)[events.len() as int] is ApprovalProcessConcluded);
}

/// Concludes the approval of a proposal that was read from storage, and
/// says whether it must be written back. A proposal whose approval already
/// concluded is left as it is and not written; otherwise the conclusion is
/// recorded, with the proposal's id as the process id, and the proposal is
/// written. Either way the approval has concluded afterwards, so a later
/// approval leaves the proposal unchanged.
pub fn approve_proposal(proposal: &mut CreditFacilityProposal, approved: bool) -> (save: bool)
    ensures
        save <==> !has_concluded(old(proposal).events@),
        !save ==> final(proposal).events@ == old(proposal).events@,
        save ==> final(proposal).events@ == old(proposal).events@.push(
            CreditFacilityProposalEvent::ApprovalProcessConcluded {
                approval_process_id: old(proposal).id,
                approved,
            },
        ),
        has_concluded(final(proposal).events@),
        final(proposal).id == old(proposal).id,
        old(proposal).is_consistent() ==> final(proposal).is_consistent(),
{
    if proposal.is_approval_process_concluded() {
        return false;
    }
    let r = proposal.approval_process_concluded(approved);
    proof {
        proposal_approval_concludes_once(old(proposal).events@, old(proposal).id, approved);
    }
    match r {
        Idempotent::Executed(()) => true,
        Idempotent::Ignored => false,
    }
}

/// The request that creates a proposal.
pub struct NewCreditFacilityProposal {
    pub id: CreditFacilityProposalId,
    pub ledger_tx_id: LedgerTxId,
    pub approval_process_id: ApprovalProcessId,
    pub customer_id: CustomerId,
    pub collateral_id: CollateralId,
    pub collateralization_state: CreditFacilityProposalCollateralizationState,
    pub account_ids: CreditFacilityProposalAccountIds,
    pub terms: TermValues,
    pub amount: UsdCents,
    pub audit_info: AuditInfo,
}

/// Collects the fields of a `NewCreditFacilityProposal`; every field must be
/// set. The collateralization state is not set: it starts
/// under-collateralized.
pub struct NewCreditFacilityProposalBuilder {
    pub id: Option<CreditFacilityProposalId>,
    pub ledger_tx_id: Option<LedgerTxId>,
    pub approval_process_id: Option<ApprovalProcessId>,
    pub customer_id: Option<CustomerId>,
    pub collateral_id: Option<CollateralId>,
    pub account_ids: Option<CreditFacilityProposalAccountIds>,
    pub terms: Option<TermValues>,
    pub amount: Option<UsdCents>,
    pub audit_info: Option<AuditInfo>,
}

impl NewCreditFacilityProposal {
    pub fn builder() -> (b: NewCreditFacilityProposalBuilder)
        ensures
            b.id is None && b.ledger_tx_id is None && b.approval_process_id is None
                && b.customer_id is None && b.collateral_id is None && b.account_ids is None
                && b.terms is None && b.amount is None && b.audit_info is None,
    {
        NewCreditFacilityProposalBuilder {
            id: None,
            ledger_tx_id: None,
            approval_process_id: None,
            customer_id: None,
            collateral_id: None,
            account_ids: None,
            terms: None,
            amount: None,
            audit_info: None,
        }
    }

    /// The single `Initialized` event of a new proposal.
    pub fn into_events(self) -> (events: Vec<CreditFacilityProposalEvent>)
        ensures
            events@ == seq![
                CreditFacilityProposalEvent::Initialized {
                    id: self.id,
                    ledger_tx_id: self.ledger_tx_id,
                    customer_id: self.customer_id,
                    collateral_id: self.collateral_id,
                    terms: self.terms,
                    amount: self.amount,
                    account_ids: self.account_ids,
                    approval_process_id: self.approval_process_id,
                    audit_info: self.audit_info,
                },
            ],
    {
        let mut v = Vec::new();
        v.push(
            CreditFacilityProposalEvent::Initialized {
                id: self.id,
                ledger_tx_id: self.ledger_tx_id,
                customer_id: self.customer_id,
                collateral_id: self.collateral_id,
                terms: self.terms,
                amount: self.amount,
                account_ids: self.account_ids,
                approval_process_id: self.approval_process_id,
                audit_info: self.audit_info,
            },
        );
        v
    }
}

impl NewCreditFacilityProposalBuilder {
    pub fn id(self, id: CreditFacilityProposalId) -> (b: Self)
        ensures
            b == (NewCreditFacilityProposalBuilder { id: Some(id), ..self }),
    {
        NewCreditFacilityProposalBuilder { id: Some(id), ..self }
    }

    pub fn ledger_tx_id(self, ledger_tx_id: LedgerTxId) -> (b: Self)
        ensures
            b == (NewCreditFacilityProposalBuilder { ledger_tx_id: Some(ledger_tx_id), ..self }),
    {
        NewCreditFacilityProposalBuilder { ledger_tx_id: Some(ledger_tx_id), ..self }
    }

    pub fn approval_process_id(self, approval_process_id: ApprovalProcessId) -> (b: Self)
        ensures
            b == (NewCreditFacilityProposalBuilder {
                approval_process_id: Some(approval_process_id),
                ..self
            }),
    {
        NewCreditFacilityProposalBuilder { approval_process_id: Some(approval_process_id), ..self }
    }

    pub fn customer_id(self, customer_id: CustomerId) -> (b: Self)
        ensures
            b == (NewCreditFacilityProposalBuilder { customer_id: Some(customer_id), ..self }),
    {
        NewCreditFacilityProposalBuilder { customer_id: Some(customer_id), ..self }
    }

    pub fn collateral_id(self, collateral_id: CollateralId) -> (b: Self)
        ensures
            b == (NewCreditFacilityProposalBuilder { collateral_id: Some(collateral_id), ..self }),
    {
        NewCreditFacilityProposalBuilder { collateral_id: Some(collateral_id), ..self }
    }

    pub fn account_ids(self, account_ids: CreditFacilityProposalAccountIds) -> (b: Self)
        ensures
            b == (NewCreditFacilityProposalBuilder { account_ids: Some(account_ids), ..self }),
    {
        NewCreditFacilityProposalBuilder { account_ids: Some(account_ids), ..self }
    }

    pub fn terms(self, terms: TermValues) -> (b: Self)
        ensures
            b == (NewCreditFacilityProposalBuilder { terms: Some(terms), ..self }),
    {
        NewCreditFacilityProposalBuilder { terms: Some(terms), ..self }
    }

    pub fn amount(self, amount: UsdCents) -> (b: Self)
        ensures
            b == (NewCreditFacilityProposalBuilder { amount: Some(amount), ..self }),
    {
        NewCreditFacilityProposalBuilder { amount: Some(amount), ..self }
    }

    pub fn audit_info(self, audit_info: AuditInfo) -> (b: Self)
        ensures
            b == (NewCreditFacilityProposalBuilder { audit_info: Some(audit_info), ..self }),
    {
        NewCreditFacilityProposalBuilder { audit_info: Some(audit_info), ..self }
    }

    /// Builds the request; fails exactly when a field is unset.
    pub fn build(self) -> (r: Result<NewCreditFacilityProposal, BuilderError>)
        ensures
            r is Ok <==> (self.id is Some && self.ledger_tx_id is Some
                && self.approval_process_id is Some && self.customer_id is Some
                && self.collateral_id is Some && self.account_ids is Some && self.terms is Some
                && self.amount is Some && self.audit_info is Some),
            r matches Err(e) ==> e is UninitializedField,
            r matches Ok(n) ==> n == (NewCreditFacilityProposal {
                id: self.id->0,
                ledger_tx_id: self.ledger_tx_id->0,
                approval_process_id: self.approval_process_id->0,
                customer_id: self.customer_id->0,
                collateral_id: self.collateral_id->0,
                collateralization_state: CreditFacilityProposalCollateralizationState::UnderCollateralized,
                account_ids: self.account_ids->0,
                terms: self.terms->0,
                amount: self.amount->0,
                audit_info: self.audit_info->0,
            }),
    {
        match (
            self.id,
            self.ledger_tx_id,
            self.approval_process_id,
            self.customer_id,
            self.collateral_id,
            self.account_ids,
            self.terms,
            self.amount,
            self.audit_info,
        ) {
            (
                Some(id),
                Some(ledger_tx_id),
                Some(approval_process_id),
                Some(customer_id),
                Some(collateral_id),
                Some(account_ids),
                Some(terms),
                Some(amount),
                Some(audit_info),
            ) => Ok(
                NewCreditFacilityProposal {
                    id,
                    ledger_tx_id,
                    approval_process_id,
                    customer_id,
                    collateral_id,
                    collateralization_state:
                        CreditFacilityProposalCollateralizationState::UnderCollateralized,
                    account_ids,
                    terms,
                    amount,
                    audit_info,
                },
            ),
            _ => Err(BuilderError::UninitializedField("credit facility proposal field")),
        }
    }
}

/// A proposal rebuilt from the events of a new request (what `into_events`
/// gives) exists, has the request's identifiers, amount, terms and
/// accounts, has no recorded collateralization (ratio zero,
/// under-collateralized), and neither a concluded approval nor a completion.
pub proof fn new_proposal_round_trip(request: NewCreditFacilityProposal, proposal: CreditFacilityProposal)
    ensures
        ({
            let events = seq![
                CreditFacilityProposalEvent::Initialized {
                    id: request.id,
                    ledger_tx_id: request.ledger_tx_id,
                    customer_id: request.customer_id,
                    collateral_id: request.collateral_id,
                    terms: request.terms,
                    amount: request.amount,
                    account_ids: request.account_ids,
                    approval_process_id: request.approval_process_id,
                    audit_info: request.audit_info,
                },
            ];
            &&& last_initialized(events) is Some
            &&& last_ratio(events) == Dec { mantissa: 0, scale: 0 }
            &&& last_state(events) == CreditFacilityProposalCollateralizationState::UnderCollateralized
            &&& !has_concluded(events)
            &&& !has_completed(events)
            &&& proposal.is_replay_of(events) ==> {
                &&& proposal.id == request.id
                &&& proposal.customer_id == request.customer_id
                &&& proposal.collateral_id == request.collateral_id
                &&& proposal.terms == request.terms
                &&& proposal.amount == request.amount
                &&& proposal.account_ids == request.account_ids
                &&& proposal.approval_process_id == request.approval_process_id
            }
        }),
{
    let events = seq![
        CreditFacilityProposalEvent::Initialized {
            id: request.id,
            ledger_tx_id: request.ledger_tx_id,
            customer_id: request.customer_id,
            collateral_id: request.collateral_id,
            terms: request.terms,
            amount: request.amount,
            account_ids: request.account_ids,
            approval_process_id: request.approval_process_id,
            audit_info: request.audit_info,
        },
    ];
    assert(events.drop_last() =~= Seq::<CreditFacilityProposalEvent>::empty());
    assert(events.last() is Initialized);
    assert(last_ratio(events.drop_last()) == Dec { mantissa: 0, scale: 0 });
    assert(last_state(events.drop_last())
        == CreditFacilityProposalCollateralizationState::UnderCollateralized);
    assert(!(events[0] is ApprovalProcessConcluded));
    assert(!(events[0] is Completed));
}

} // verus!
