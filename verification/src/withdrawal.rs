//! Withdrawals: an event-sourced entity that goes through approval, then is
//! confirmed or cancelled, and once confirmed may be reverted.

use vstd::prelude::*;

use crate::primitives::{
    tagged_id, uuid_text, ApprovalProcessId, AuditInfo, BuilderError, CalaTransactionId,
    DepositAccountId, EntityError, EntityId, Idempotent, UsdCents, WithdrawalId,
};

verus! {

#[derive(Clone, Copy, Debug, PartialEq, Eq, Structural)]
pub enum WithdrawalStatus {
    PendingApproval,
    PendingConfirmation,
    Confirmed,
    Denied,
    Cancelled,
    Reverted,
}

#[derive(Debug)]
pub enum WithdrawalEvent {
    Initialized {
        id: WithdrawalId,
        ledger_tx_id: CalaTransactionId,
        deposit_account_id: DepositAccountId,
        amount: UsdCents,
        reference: String,
        approval_process_id: ApprovalProcessId,
        status: WithdrawalStatus,
        audit_info: AuditInfo,
    },
    ApprovalProcessConcluded {
        approval_process_id: ApprovalProcessId,
        approved: bool,
        status: WithdrawalStatus,
        audit_info: AuditInfo,
    },
    Confirmed { ledger_tx_id: CalaTransactionId, status: WithdrawalStatus, audit_info: AuditInfo },
    Cancelled { ledger_tx_id: CalaTransactionId, status: WithdrawalStatus, audit_info: AuditInfo },
    Reverted { ledger_tx_id: CalaTransactionId, status: WithdrawalStatus, audit_info: AuditInfo },
}

#[derive(Clone, Copy, Debug, PartialEq, Eq, Structural)]
pub enum WithdrawalError {
    NotApproved(WithdrawalId),
    AlreadyConfirmed(WithdrawalId),
    AlreadyCancelled(WithdrawalId),
    NotConfirmed(WithdrawalId),
}

/// What the ledger needs to post the reversal of a withdrawal.
#[derive(Debug)]
pub struct WithdrawalReversalData {
    pub ledger_tx_id: CalaTransactionId,
    pub credit_account_id: DepositAccountId,
    pub amount: UsdCents,
    pub correlation_id: String,
    pub external_id: String,
}

/// The decision of the oldest `ApprovalProcessConcluded` event, if any.
pub open spec fn first_approval(events: Seq<WithdrawalEvent>) -> Option<bool>
    decreases events.len(),
{
    if events.len() == 0 {
        None
    } else {
        match first_approval(events.drop_last()) {
            Some(b) => Some(b),
            None => match events.last() {
                WithdrawalEvent::ApprovalProcessConcluded { approved, .. } => Some(approved),
                _ => None,
            },
        }
    }
}

pub open spec fn has_approval_concluded(events: Seq<WithdrawalEvent>) -> bool {
    exists|i: int| 0 <= i < events.len() && #[trigger] events[i] is ApprovalProcessConcluded
}

pub open spec fn has_confirmed(events: Seq<WithdrawalEvent>) -> bool {
    exists|i: int| 0 <= i < events.len() && #[trigger] events[i] is Confirmed
}

pub open spec fn has_cancelled(events: Seq<WithdrawalEvent>) -> bool {
    exists|i: int| 0 <= i < events.len() && #[trigger] events[i] is Cancelled
}

pub open spec fn has_reverted(events: Seq<WithdrawalEvent>) -> bool {
    exists|i: int| 0 <= i < events.len() && #[trigger] events[i] is Reverted
}

/// The status an event carries (every event carries one).
pub open spec fn event_status(e: WithdrawalEvent) -> WithdrawalStatus {
    match e {
        WithdrawalEvent::Initialized { status, .. } => status,
        WithdrawalEvent::ApprovalProcessConcluded { status, .. } => status,
        WithdrawalEvent::Confirmed { status, .. } => status,
        WithdrawalEvent::Cancelled { status, .. } => status,
        WithdrawalEvent::Reverted { status, .. } => status,
    }
}

/// The newest `Initialized` event, if any.
pub open spec fn last_initialized(events: Seq<WithdrawalEvent>) -> Option<WithdrawalEvent>
    decreases events.len(),
{
    if events.len() == 0 {
        None
    } else {
        match events.last() {
            WithdrawalEvent::Initialized { .. } => Some(events.last()),
            _ => last_initialized(events.drop_last()),
        }
    }
}

/// The ledger transaction of the newest `Cancelled` event, if any.
pub open spec fn last_cancelled_tx(events: Seq<WithdrawalEvent>) -> Option<CalaTransactionId>
    decreases events.len(),
{
    if events.len() == 0 {
        None
    } else {
        match events.last() {
            WithdrawalEvent::Cancelled { ledger_tx_id, .. } => Some(ledger_tx_id),
            _ => last_cancelled_tx(events.drop_last()),
        }
    }
}

pub struct Withdrawal {
    pub id: WithdrawalId,
    pub deposit_account_id: DepositAccountId,
    pub reference: String,
    pub amount: UsdCents,
    pub approval_process_id: ApprovalProcessId,
    pub cancelled_tx_id: Option<CalaTransactionId>,
    pub events: Vec<WithdrawalEvent>,
}

/// `after` has the same account, reference, amount and approval process as
/// `before`.
pub open spec fn keeps_details(before: Withdrawal, after: Withdrawal) -> bool {
    &&& after.deposit_account_id == before.deposit_account_id
    &&& after.reference@ == before.reference@
    &&& after.amount == before.amount
    &&& after.approval_process_id == before.approval_process_id
}

/// Whether confirming is refused, and with which error, given the events.
pub open spec fn confirm_error(id: WithdrawalId, events: Seq<WithdrawalEvent>) -> Option<
    WithdrawalError,
> {
    if first_approval(events) != Some(true) {
        Some(WithdrawalError::NotApproved(id))
    } else if has_confirmed(events) {
        Some(WithdrawalError::AlreadyConfirmed(id))
    } else if has_cancelled(events) {
        Some(WithdrawalError::AlreadyCancelled(id))
    } else {
        None
    }
}

/// Whether cancelling is refused, and with which error, given the events.
pub open spec fn cancel_error(id: WithdrawalId, events: Seq<WithdrawalEvent>) -> Option<
    WithdrawalError,
> {
    if has_confirmed(events) {
        Some(WithdrawalError::AlreadyConfirmed(id))
    } else if has_cancelled(events) {
        Some(WithdrawalError::AlreadyCancelled(id))
    } else {
        None
    }
}

proof fn lemma_push_keeps_initialized(events: Seq<WithdrawalEvent>, e: WithdrawalEvent)
    requires
        !(e is Initialized),
    ensures
        last_initialized(events.push(e)) == last_initialized(events),
        !(e is Cancelled) ==> last_cancelled_tx(events.push(e)) == last_cancelled_tx(events),
        e matches WithdrawalEvent::Cancelled { ledger_tx_id, .. } ==> last_cancelled_tx(
            events.push(e),
        ) == Some(ledger_tx_id),
{
    assert(events.push(e).drop_last() =~= events);
}

impl Withdrawal {
    /// The identifiers, amount and reference are those of the newest
    /// `Initialized` event; the cancelled transaction that of the newest
    /// `Cancelled` event.
    pub open spec fn is_replay_of(&self, events: Seq<WithdrawalEvent>) -> bool {
        &&& match last_initialized(events) {
            Some(
                WithdrawalEvent::Initialized {
                    id,
                    deposit_account_id,
                    amount,
                    reference,
                    approval_process_id,
                    ..
                },
            ) => {
                &&& self.id == id
                &&& self.deposit_account_id == deposit_account_id
                &&& self.amount == amount
                &&& self.reference@ == reference@
                &&& self.approval_process_id == approval_process_id
            },
            _ => false,
        }
        &&& self.cancelled_tx_id == last_cancelled_tx(events)
    }

    pub open spec fn is_consistent(&self) -> bool {
        self.is_replay_of(self.events@)
    }

    /// Rebuilds a withdrawal from its events. Fails when no event initialised
    /// it.
    pub fn try_from_events(events: Vec<WithdrawalEvent>) -> (r: Result<Withdrawal, EntityError>)
        ensures
            r is Ok <==> last_initialized(events@) is Some,
            r matches Ok(w) ==> w.is_replay_of(events@) && w.events@ == events@,
    {
        let mut init: Option<
            (WithdrawalId, DepositAccountId, UsdCents, String, ApprovalProcessId),
        > = None;
        let mut cancelled: Option<CalaTransactionId> = None;
        let n = events.len();
        let mut i: usize = 0;
        while i < n
            invariant
                n == events.len(),
                i <= n,
                init is Some <==> last_initialized(events@.take(i as int)) is Some,
                init matches Some(t) ==> (match last_initialized(events@.take(i as int)) {
                    Some(
                        WithdrawalEvent::Initialized {
                            id,
                            deposit_account_id,
                            amount,
                            reference,
                            approval_process_id,
                            ..
                        },
                    ) => t.0 == id && t.1 == deposit_account_id && t.2 == amount && t.3@
                        == reference@ && t.4 == approval_process_id,
                    _ => false,
                }),
                cancelled == last_cancelled_tx(events@.take(i as int)),
            decreases n - i,
        {
            assert(events@.take(i + 1).drop_last() =~= events@.take(i as int));
            assert(events@.take(i + 1).last() == events@[i as int]);
            match &events[i] {
                WithdrawalEvent::Initialized {
                    id,
                    deposit_account_id,
                    amount,
                    reference,
                    approval_process_id,
                    ..
                } => {
                    init = Some(
                        (*id, *deposit_account_id, *amount, reference.clone(), *approval_process_id),
                    );
                },
                WithdrawalEvent::Cancelled { ledger_tx_id, .. } => {
                    cancelled = Some(*ledger_tx_id);
                },
                _ => {},
            }
            i += 1;
        }
        assert(events@.take(n as int) =~= events@);
        match init {
            Some(t) => {
                let (id, deposit_account_id, amount, reference, approval_process_id) = t;
                Ok(
                    Withdrawal {
                        id,
                        deposit_account_id,
                        reference,
                        amount,
                        approval_process_id,
                        cancelled_tx_id: cancelled,
                        events,
                    },
                )
            },
            None => Err(EntityError::UninitializedField),
        }
    }

    /// The decision of the oldest concluded approval process, if any.
    pub fn is_approved_or_denied(&self) -> (r: Option<bool>)
        ensures
            r == first_approval(self.events@),
    {
        let n = self.events.len();
        let mut i: usize = 0;
        while i < n
            invariant
                n == self.events.len(),
                i <= n,
                first_approval(self.events@.take(i as int)) is None,
            decreases n - i,
        {
            assert(self.events@.take(i + 1).drop_last() =~= self.events@.take(i as int));
            assert(self.events@.take(i + 1).last() == self.events@[i as int]);
            if let WithdrawalEvent::ApprovalProcessConcluded { approved, .. } = &self.events[i] {
                proof {
                    lemma_first_approval_prefix(self.events@, i as int + 1);
                }
                return Some(*approved);
            }
            i += 1;
        }
        assert(self.events@.take(n as int) =~= self.events@);
        None
    }

    pub fn is_confirmed(&self) -> (b: bool)
        ensures
            b == has_confirmed(self.events@),
    {
        let mut i: usize = 0;
        while i < self.events.len()
            invariant
                i <= self.events.len(),
                forall|j: int| 0 <= j < i ==> !(#[trigger] self.events@[j] is Confirmed),
            decreases self.events.len() - i,
        {
            if let WithdrawalEvent::Confirmed { .. } = &self.events[i] {
                return true;
            }
            i += 1;
        }
        false
    }

    pub fn is_cancelled(&self) -> (b: bool)
        ensures
            b == has_cancelled(self.events@),
    {
        let mut i: usize = 0;
        while i < self.events.len()
            invariant
                i <= self.events.len(),
                forall|j: int| 0 <= j < i ==> !(#[trigger] self.events@[j] is Cancelled),
            decreases self.events.len() - i,
        {
            if let WithdrawalEvent::Cancelled { .. } = &self.events[i] {
                return true;
            }
            i += 1;
        }
        false
    }

    pub fn is_reverted(&self) -> (b: bool)
        ensures
            b == has_reverted(self.events@),
    {
        let mut i: usize = 0;
        while i < self.events.len()
            invariant
                i <= self.events.len(),
                forall|j: int| 0 <= j < i ==> !(#[trigger] self.events@[j] is Reverted),
            decreases self.events.len() - i,
        {
            if let WithdrawalEvent::Reverted { .. } = &self.events[i] {
                return true;
            }
            i += 1;
        }
        false
    }

    fn has_concluded_approval(&self) -> (b: bool)
        ensures
            b == has_approval_concluded(self.events@),
    {
        let mut i: usize = 0;
        while i < self.events.len()
            invariant
                i <= self.events.len(),
                forall|j: int| 0 <= j < i ==> !(#[trigger] self.events@[j] is ApprovalProcessConcluded),
            decreases self.events.len() - i,
        {
            if let WithdrawalEvent::ApprovalProcessConcluded { .. } = &self.events[i] {
                return true;
            }
            i += 1;
        }
        false
    }

    /// The status carried by the newest event.
    pub fn status(&self) -> (s: WithdrawalStatus)
        requires
            self.events@.len() > 0,
        ensures
            s == event_status(self.events@.last()),
    {
        let n = self.events.len();
        match &self.events[n - 1] {
            WithdrawalEvent::Initialized { status, .. } => *status,
            WithdrawalEvent::ApprovalProcessConcluded { status, .. } => *status,
            WithdrawalEvent::Confirmed { status, .. } => *status,
            WithdrawalEvent::Cancelled { status, .. } => *status,
            WithdrawalEvent::Reverted { status, .. } => *status,
        }
    }

    /// Records the outcome of the approval process, unless one was ever
    /// recorded. An approval leaves the withdrawal pending confirmation, a
    /// denial denies it.
    pub fn approval_process_concluded(&mut self, approved: bool, audit_info: AuditInfo) -> (r:
        Idempotent<()>)
        ensures
            keeps_details(*old(self), *final(self)),
            r is Ignored <==> has_approval_concluded(old(self).events@),
            r is Ignored ==> *final(self) == *old(self),
            r is Executed ==> final(self).events@ == old(self).events@.push(
                WithdrawalEvent::ApprovalProcessConcluded {
                    approval_process_id: old(self).id,
                    approved,
                    status: if approved {
                        WithdrawalStatus::PendingConfirmation
                    } else {
                        WithdrawalStatus::Denied
                    },
                    audit_info,
                },
            ),
            r is Executed ==> final(self).id == old(self).id && final(self).cancelled_tx_id == old(
                self,
            ).cancelled_tx_id && final(self).amount == old(self).amount,
            old(self).is_consistent() ==> final(self).is_consistent(),
    {
        if self.has_concluded_approval() {
            return Idempotent::Ignored;
        }
        let status = if approved {
            WithdrawalStatus::PendingConfirmation
        } else {
            WithdrawalStatus::Denied
        };
        let e = WithdrawalEvent::ApprovalProcessConcluded {
            approval_process_id: self.id,
            approved,
            status,
            audit_info,
        };
        proof {
            lemma_push_keeps_initialized(self.events@, e);
        }
        self.events.push(e);
        Idempotent::Executed(())
    }

    /// Confirms an approved withdrawal with a fresh ledger transaction.
    /// Refused when not approved, already confirmed or already cancelled
    /// (checked in that order).
    pub fn confirm(&mut self, audit_info: AuditInfo) -> (r: Result<CalaTransactionId, WithdrawalError>)
        ensures
            keeps_details(*old(self), *final(self)),
            r is Err <==> confirm_error(old(self).id, old(self).events@) is Some,
            r matches Err(e) ==> Some(e) == confirm_error(old(self).id, old(self).events@)
                && *final(self) == *old(self),
            r matches Ok(tx) ==> final(self).events@ == old(self).events@.push(
                WithdrawalEvent::Confirmed {
                    ledger_tx_id: tx,
                    status: WithdrawalStatus::Confirmed,
                    audit_info,
                },
            ) && final(self).id == old(self).id && final(self).cancelled_tx_id == old(
                self,
            ).cancelled_tx_id,
            old(self).is_consistent() ==> final(self).is_consistent(),
    {
        match self.is_approved_or_denied() {
            Some(false) => return Err(WithdrawalError::NotApproved(self.id)),
            None => return Err(WithdrawalError::NotApproved(self.id)),
            _ => {},
        }
        if self.is_confirmed() {
            return Err(WithdrawalError::AlreadyConfirmed(self.id));
        }
        if self.is_cancelled() {
            return Err(WithdrawalError::AlreadyCancelled(self.id));
        }
        let ledger_tx_id = EntityId::new();
        let e = WithdrawalEvent::Confirmed {
            ledger_tx_id,
            status: WithdrawalStatus::Confirmed,
            audit_info,
        };
        proof {
            lemma_push_keeps_initialized(self.events@, e);
        }
        self.events.push(e);
        Ok(ledger_tx_id)
    }

    /// Reverts a confirmed withdrawal with a fresh ledger transaction. Does
    /// nothing when it was ever reverted or cancelled; refused when it was
    /// never confirmed.
    pub fn revert(&mut self, audit_info: AuditInfo) -> (r: Result<
        Idempotent<WithdrawalReversalData>,
        WithdrawalError,
    >)
        ensures
            keeps_details(*old(self), *final(self)),
            has_reverted(old(self).events@) || has_cancelled(old(self).events@) ==> (r matches Ok(
                Idempotent::Ignored,
            )) && *final(self) == *old(self),
            !has_reverted(old(self).events@) && !has_cancelled(old(self).events@) && !has_confirmed(
                old(self).events@,
            ) ==> r == Err::<Idempotent<WithdrawalReversalData>, WithdrawalError>(
                WithdrawalError::NotConfirmed(old(self).id),
            ) && *final(self) == *old(self),
            !has_reverted(old(self).events@) && !has_cancelled(old(self).events@) && has_confirmed(
                old(self).events@,
            ) ==> (r matches Ok(Idempotent::Executed(data)) && final(self).events@ == old(
                self,
            ).events@.push(
                WithdrawalEvent::Reverted {
                    ledger_tx_id: data.ledger_tx_id,
                    status: WithdrawalStatus::Reverted,
                    audit_info,
                },
            ) && data.credit_account_id == old(self).deposit_account_id && data.amount == old(
                self,
            ).amount && data.correlation_id@ == uuid_text(old(self).id.bits) && data.external_id@
                == "lana:withdraw:"@ + uuid_text(old(self).id.bits) + ":reverted"@),
            final(self).id == old(self).id,
            final(self).cancelled_tx_id == old(self).cancelled_tx_id,
            old(self).is_consistent() ==> final(self).is_consistent(),
    {
        if self.is_reverted() || self.is_cancelled() {
            return Ok(Idempotent::Ignored);
        }
        if !self.is_confirmed() {
            return Err(WithdrawalError::NotConfirmed(self.id));
        }
        let ledger_tx_id = EntityId::new();
        let e = WithdrawalEvent::Reverted {
            ledger_tx_id,
            status: WithdrawalStatus::Reverted,
            audit_info,
        };
        proof {
            lemma_push_keeps_initialized(self.events@, e);
        }
        self.events.push(e);
        let correlation_id = self.id.to_string();
        let external_id = tagged_id("lana:withdraw:", self.id, ":reverted");
        Ok(
            Idempotent::Executed(
                WithdrawalReversalData {
                    ledger_tx_id,
                    amount: self.amount,
                    credit_account_id: self.deposit_account_id,
                    correlation_id,
                    external_id,
                },
            ),
        )
    }

    /// Cancels a withdrawal with a fresh ledger transaction. Refused when
    /// already confirmed or already cancelled (checked in that order).
    pub fn cancel(&mut self, audit_info: AuditInfo) -> (r: Result<CalaTransactionId, WithdrawalError>)
        ensures
            keeps_details(*old(self), *final(self)),
            r is Err <==> cancel_error(old(self).id, old(self).events@) is Some,
            r matches Err(e) ==> Some(e) == cancel_error(old(self).id, old(self).events@)
                && *final(self) == *old(self),
            r matches Ok(tx) ==> final(self).events@ == old(self).events@.push(
                WithdrawalEvent::Cancelled {
                    ledger_tx_id: tx,
                    status: WithdrawalStatus::Cancelled,
                    audit_info,
                },
            ) && final(self).cancelled_tx_id == Some(tx) && final(self).id == old(self).id,
            old(self).is_consistent() ==> final(self).is_consistent(),
    {
        if self.is_confirmed() {
            return Err(WithdrawalError::AlreadyConfirmed(self.id));
        }
        if self.is_cancelled() {
            return Err(WithdrawalError::AlreadyCancelled(self.id));
        }
        let ledger_tx_id = EntityId::new();
        let e = WithdrawalEvent::Cancelled {
            ledger_tx_id,
            status: WithdrawalStatus::Cancelled,
            audit_info,
        };
        proof {
            lemma_push_keeps_initialized(self.events@, e);
        }
        self.events.push(e);
        self.cancelled_tx_id = Some(ledger_tx_id);
        Ok(ledger_tx_id)
    }
}

/// The first approval decision of a sequence is decided by its prefix up to
/// and including the first decision.
proof fn lemma_first_approval_prefix(events: Seq<WithdrawalEvent>, k: int)
    requires
        0 < k <= events.len(),
        first_approval(events.take(k)) is Some,
    ensures
        first_approval(events) == first_approval(events.take(k)),
    decreases events.len() - k,
{
    if k == events.len() {
        assert(events.take(k) =~= events);
    } else {
        assert(events.take(k + 1).drop_last() =~= events.take(k));
        lemma_first_approval_prefix(events, k + 1);
    }
}


/// The request that creates a withdrawal.
pub struct NewWithdrawal {
    pub id: WithdrawalId,
    pub deposit_account_id: DepositAccountId,
    pub amount: UsdCents,
    pub approval_process_id: ApprovalProcessId,
    pub reference: Option<String>,
    pub audit_info: AuditInfo,
}

pub type NewWithdrawalBuilderError = BuilderError;

/// Collects the fields of a `NewWithdrawal`; every field must be set, and
/// the amount must not be zero.
pub struct NewWithdrawalBuilder {
    pub id: Option<WithdrawalId>,
    pub deposit_account_id: Option<DepositAccountId>,
    pub amount: Option<UsdCents>,
    pub approval_process_id: Option<ApprovalProcessId>,
    pub reference: Option<Option<String>>,
    pub audit_info: Option<AuditInfo>,
}

/// The reference a withdrawal is recorded with: the given one, or the
/// withdrawal's id when none or an empty one is given.
pub open spec fn effective_reference(id: EntityId, reference: Option<String>) -> Seq<char> {
    match reference {
        Some(r) => if r@.len() == 0 {
            uuid_text(id.bits)
        } else {
            r@
        },
        None => uuid_text(id.bits),
    }
}

impl NewWithdrawal {
    pub fn builder() -> (b: NewWithdrawalBuilder)
        ensures
            b.id is None && b.deposit_account_id is None && b.amount is None
                && b.approval_process_id is None && b.reference is None && b.audit_info is None,
    {
        NewWithdrawalBuilder {
            id: None,
            deposit_account_id: None,
            amount: None,
            approval_process_id: None,
            reference: None,
            audit_info: None,
        }
    }

    pub fn reference(&self) -> (r: String)
        ensures
            r@ == effective_reference(self.id, self.reference),
    {
        match &self.reference {
            None => self.id.to_string(),
            Some(reference) => {
                if reference.as_str().is_empty() {
                    self.id.to_string()
                } else {
                    reference.clone()
                }
            },
        }
    }

    /// The single `Initialized` event of a withdrawal pending approval; its
    /// ledger transaction id is the withdrawal's id.
    pub fn into_events(self) -> (events: Vec<WithdrawalEvent>)
        ensures
            events@.len() == 1,
            events@[0] matches WithdrawalEvent::Initialized {
                id,
                ledger_tx_id,
                deposit_account_id,
                amount,
                reference,
                approval_process_id,
                status,
                audit_info,
            } && id == self.id && ledger_tx_id == self.id && deposit_account_id
                == self.deposit_account_id && amount == self.amount && reference@
                == effective_reference(self.id, self.reference) && approval_process_id
                == self.approval_process_id && status == WithdrawalStatus::PendingApproval
                && audit_info == self.audit_info,
    {
        let reference = self.reference();
        let mut v = Vec::new();
        v.push(
            WithdrawalEvent::Initialized {
                id: self.id,
                ledger_tx_id: self.id,
                deposit_account_id: self.deposit_account_id,
                amount: self.amount,
                reference,
                approval_process_id: self.approval_process_id,
                status: WithdrawalStatus::PendingApproval,
                audit_info: self.audit_info,
            },
        );
        v
    }
}

impl NewWithdrawalBuilder {
    pub fn id(self, id: WithdrawalId) -> (b: Self)
        ensures
            b == (NewWithdrawalBuilder { id: Some(id), ..self }),
    {
        NewWithdrawalBuilder { id: Some(id), ..self }
    }

    pub fn deposit_account_id(self, deposit_account_id: DepositAccountId) -> (b: Self)
        ensures
            b == (NewWithdrawalBuilder { deposit_account_id: Some(deposit_account_id), ..self }),
    {
        NewWithdrawalBuilder { deposit_account_id: Some(deposit_account_id), ..self }
    }

    pub fn amount(self, amount: UsdCents) -> (b: Self)
        ensures
            b == (NewWithdrawalBuilder { amount: Some(amount), ..self }),
    {
        NewWithdrawalBuilder { amount: Some(amount), ..self }
    }

    pub fn approval_process_id(self, approval_process_id: ApprovalProcessId) -> (b: Self)
        ensures
            b == (NewWithdrawalBuilder { approval_process_id: Some(approval_process_id), ..self }),
    {
        NewWithdrawalBuilder { approval_process_id: Some(approval_process_id), ..self }
    }

    pub fn reference(self, reference: Option<String>) -> (b: Self)
        ensures
            b == (NewWithdrawalBuilder { reference: Some(reference), ..self }),
    {
        NewWithdrawalBuilder { reference: Some(reference), ..self }
    }

    pub fn audit_info(self, audit_info: AuditInfo) -> (b: Self)
        ensures
            b == (NewWithdrawalBuilder { audit_info: Some(audit_info), ..self }),
    {
        NewWithdrawalBuilder { audit_info: Some(audit_info), ..self }
    }

    /// Builds the request. A zero amount fails validation (checked first);
    /// otherwise it fails exactly when a field is unset.
    pub fn build(self) -> (r: Result<NewWithdrawal, NewWithdrawalBuilderError>)
        ensures
            (self.amount matches Some(a) && a.cents == 0) ==> (r matches Err(
                BuilderError::ValidationError(m),
            ) && m@ == "Withdrawal amount cannot be zero"@),
            !(self.amount matches Some(a) && a.cents == 0) ==> {
                &&& r is Ok <==> (self.id is Some && self.deposit_account_id is Some
                    && self.amount is Some && self.approval_process_id is Some
                    && self.reference is Some && self.audit_info is Some)
                &&& r matches Err(e) ==> e is UninitializedField
                &&& r matches Ok(n) ==> n == (NewWithdrawal {
                    id: self.id->0,
                    deposit_account_id: self.deposit_account_id->0,
                    amount: self.amount->0,
                    approval_process_id: self.approval_process_id->0,
                    reference: self.reference->0,
                    audit_info: self.audit_info->0,
                })
            },
    {
        if let Some(amount) = &self.amount {
            if amount.is_zero() {
                return Err(
                    BuilderError::ValidationError("Withdrawal amount cannot be zero".to_owned()),
                );
            }
        }
        match (
            self.id,
            self.deposit_account_id,
            self.amount,
            self.approval_process_id,
            self.reference,
            self.audit_info,
        ) {
            (
                Some(id),
                Some(deposit_account_id),
                Some(amount),
                Some(approval_process_id),
                Some(reference),
                Some(audit_info),
            ) => Ok(
                NewWithdrawal {
                    id,
                    deposit_account_id,
                    amount,
                    approval_process_id,
                    reference,
                    audit_info,
                },
            ),
            _ => Err(BuilderError::UninitializedField("withdrawal field")),
        }
    }
}

/// Once a withdrawal is confirmed, a further confirmation or a cancellation
/// is refused with `AlreadyConfirmed` (a confirmation needs an approval
/// first, so this speaks of approved withdrawals).
pub proof fn confirmed_withdrawal_refuses_confirm_and_cancel(
    id: WithdrawalId,
    events: Seq<WithdrawalEvent>,
    ledger_tx_id: CalaTransactionId,
    audit_info: AuditInfo,
)
    requires
        first_approval(events) == Some(true),
    ensures
        ({
            let confirmed = events.push(
                WithdrawalEvent::Confirmed {
                    ledger_tx_id,
                    status: WithdrawalStatus::Confirmed,
                    audit_info,
                },
            );
            &&& confirm_error(id, confirmed) == Some(WithdrawalError::AlreadyConfirmed(id))
            &&& cancel_error(id, confirmed) == Some(WithdrawalError::AlreadyConfirmed(id))
        }),
{
    let confirmed = events.push(
        WithdrawalEvent::Confirmed { ledger_tx_id, status: WithdrawalStatus::Confirmed, audit_info },
    );
    assert(confirmed.drop_last() =~= events);
    assert(confirmed[events.len() as int] is Confirmed);
}

/// Once a reversal or a cancellation is recorded, every further reversal
/// does nothing (`revert` returns `Ok(Ignored)` on such events).
pub proof fn settled_withdrawal_ignores_revert(
    events: Seq<WithdrawalEvent>,
    ledger_tx_id: CalaTransactionId,
    audit_info: AuditInfo,
)
    ensures
        has_reverted(
            events.push(
                WithdrawalEvent::Reverted {
                    ledger_tx_id,
                    status: WithdrawalStatus::Reverted,
                    audit_info,
                },
            ),
        ),
        has_cancelled(
            events.push(
                WithdrawalEvent::Cancelled {
                    ledger_tx_id,
                    status: WithdrawalStatus::Cancelled,
                    audit_info,
                },
            ),
        ),
{
    let r = events.push(
        WithdrawalEvent::Reverted { ledger_tx_id, status: WithdrawalStatus::Reverted, audit_info },
    );
    assert(r[events.len() as int] is Reverted);
    let c = events.push(
        WithdrawalEvent::Cancelled { ledger_tx_id, status: WithdrawalStatus::Cancelled, audit_info },
    );
    assert(c[events.len() as int] is Cancelled);
}

/// The approval process concludes at most once.
pub proof fn approval_concludes_once(events: Seq<WithdrawalEvent>, e: WithdrawalEvent)
    requires
        e is ApprovalProcessConcluded,
    ensures
        has_approval_concluded(events.push(e)),
{
    assert(events.push(e)[events.len() as int] is ApprovalProcessConcluded);
}
/// A withdrawal rebuilt from the events of a new request (what
/// `into_events` gives) exists, has the request's id, account, amount,
/// approval process and effective reference, has no cancellation, and is
/// pending approval.
pub proof fn new_withdrawal_round_trip(
    request: NewWithdrawal,
    events: Seq<WithdrawalEvent>,
    withdrawal: Withdrawal,
)
    requires
        events.len() == 1,
        events[0] matches WithdrawalEvent::Initialized {
            id,
            ledger_tx_id,
            deposit_account_id,
            amount,
            reference,
            approval_process_id,
            status,
            audit_info,
        } && id == request.id && ledger_tx_id == request.id && deposit_account_id
            == request.deposit_account_id && amount == request.amount && reference@
            == effective_reference(request.id, request.reference) && approval_process_id
            == request.approval_process_id && status == WithdrawalStatus::PendingApproval
            && audit_info == request.audit_info,
    ensures
        last_initialized(events) is Some,
        event_status(events.last()) == WithdrawalStatus::PendingApproval,
        withdrawal.is_replay_of(events) ==> {
            &&& withdrawal.id == request.id
            &&& withdrawal.deposit_account_id == request.deposit_account_id
            &&& withdrawal.amount == request.amount
            &&& withdrawal.approval_process_id == request.approval_process_id
            &&& withdrawal.reference@ == effective_reference(request.id, request.reference)
            &&& withdrawal.cancelled_tx_id is None
        },
{
    assert(events.drop_last() =~= Seq::<WithdrawalEvent>::empty());
    assert(events.last() is Initialized);
    assert(last_cancelled_tx(events.drop_last()) is None);
}

} // verus!
