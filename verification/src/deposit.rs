//! Deposits: an event-sourced entity that can be reverted once, and the
//! validated request that creates one.

use vstd::prelude::*;

use crate::primitives::{
    tagged_id, uuid_text, AuditInfo, BuilderError, CalaTransactionId, DepositAccountId, DepositId,
    DepositAccountHolderId, EntityError, EntityId, Idempotent, UsdCents, WithdrawalId,
};

verus! {

#[derive(Clone, Copy, Debug, PartialEq, Eq, Structural)]
pub enum DepositStatus {
    Confirmed,
    Reverted,
}

#[derive(Debug)]
pub enum DepositEvent {
    Initialized {
        id: DepositId,
        ledger_tx_id: CalaTransactionId,
        deposit_account_id: DepositAccountId,
        amount: UsdCents,
        reference: String,
        status: DepositStatus,
        audit_info: AuditInfo,
    },
    Reverted { ledger_tx_id: CalaTransactionId, audit_info: AuditInfo },
    StatusUpdated { status: DepositStatus, audit_info: AuditInfo },
}

/// What the deposit module announces to other modules.
#[derive(Clone, Copy, Debug, PartialEq, Eq, Structural)]
pub enum CoreDepositEvent {
    DepositAccountCreated { id: DepositAccountId, account_holder_id: DepositAccountHolderId },
    DepositStatusUpdated { id: DepositId, status: DepositStatus },
    DepositInitialized { id: DepositId, deposit_account_id: DepositAccountId, amount: UsdCents },
    WithdrawalConfirmed { id: WithdrawalId, deposit_account_id: DepositAccountId, amount: UsdCents },
    DepositReverted { id: DepositId, deposit_account_id: DepositAccountId, amount: UsdCents },
}

/// What the ledger needs to post the reversal of a deposit.
#[derive(Debug)]
pub struct DepositReversalData {
    pub ledger_tx_id: CalaTransactionId,
    pub credit_account_id: DepositAccountId,
    pub amount: UsdCents,
    pub correlation_id: String,
    pub external_id: String,
}

/// The status of the newest event that carries one (`Initialized` or
/// `StatusUpdated`).
pub open spec fn deposit_status(events: Seq<DepositEvent>) -> Option<DepositStatus>
    decreases events.len(),
{
    if events.len() == 0 {
        None
    } else {
        match events.last() {
            DepositEvent::Initialized { status, .. } => Some(status),
            DepositEvent::StatusUpdated { status, .. } => Some(status),
            _ => deposit_status(events.drop_last()),
        }
    }
}

/// The status of the newest `StatusUpdated` event, if any.
pub open spec fn newest_status_update(events: Seq<DepositEvent>) -> Option<DepositStatus>
    decreases events.len(),
{
    if events.len() == 0 {
        None
    } else {
        match events.last() {
            DepositEvent::StatusUpdated { status, .. } => Some(status),
            _ => newest_status_update(events.drop_last()),
        }
    }
}

/// The newest `Initialized` event, if any.
pub open spec fn last_initialized(events: Seq<DepositEvent>) -> Option<DepositEvent>
    decreases events.len(),
{
    if events.len() == 0 {
        None
    } else {
        match events.last() {
            DepositEvent::Initialized { .. } => Some(events.last()),
            _ => last_initialized(events.drop_last()),
        }
    }
}

pub open spec fn has_reverted(events: Seq<DepositEvent>) -> bool {
    exists|i: int| 0 <= i < events.len() && #[trigger] events[i] is Reverted
}

pub struct Deposit {
    pub id: DepositId,
    pub deposit_account_id: DepositAccountId,
    pub amount: UsdCents,
    pub reference: String,
    pub events: Vec<DepositEvent>,
}

fn scan_status(events: &Vec<DepositEvent>) -> (r: Option<DepositStatus>)
    ensures
        r == deposit_status(events@),
{
    let mut i = events.len();
    assert(events@.take(i as int) =~= events@);
    while i > 0
        invariant
            i <= events.len(),
            deposit_status(events@) == deposit_status(events@.take(i as int)),
        decreases i,
    {
        assert(events@.take(i as int).drop_last() =~= events@.take(i - 1));
        assert(events@.take(i as int).last() == events@[i - 1]);
        match &events[i - 1] {
            DepositEvent::Initialized { status, .. } => {
                return Some(*status);
            },
            DepositEvent::StatusUpdated { status, .. } => {
                return Some(*status);
            },
            _ => {},
        }
        i -= 1;
    }
    None
}

fn scan_status_update(events: &Vec<DepositEvent>) -> (r: Option<DepositStatus>)
    ensures
        r == newest_status_update(events@),
{
    let mut i = events.len();
    assert(events@.take(i as int) =~= events@);
    while i > 0
        invariant
            i <= events.len(),
            newest_status_update(events@) == newest_status_update(events@.take(i as int)),
        decreases i,
    {
        assert(events@.take(i as int).drop_last() =~= events@.take(i - 1));
        assert(events@.take(i as int).last() == events@[i - 1]);
        if let DepositEvent::StatusUpdated { status, .. } = &events[i - 1] {
            return Some(*status);
        }
        i -= 1;
    }
    None
}

fn scan_reverted(events: &Vec<DepositEvent>) -> (b: bool)
    ensures
        b == has_reverted(events@),
{
    let mut i: usize = 0;
    while i < events.len()
        invariant
            i <= events.len(),
            forall|j: int| 0 <= j < i ==> !(#[trigger] events@[j] is Reverted),
        decreases events.len() - i,
    {
        if let DepositEvent::Reverted { .. } = &events[i] {
            return true;
        }
        i += 1;
    }
    false
}

impl Deposit {
    /// The identifiers, amount and reference are those of the newest
    /// `Initialized` event.
    pub open spec fn is_replay_of(&self, events: Seq<DepositEvent>) -> bool {
        match last_initialized(events) {
            Some(DepositEvent::Initialized { id, deposit_account_id, amount, reference, .. }) => {
                &&& self.id == id
                &&& self.deposit_account_id == deposit_account_id
                &&& self.amount == amount
                &&& self.reference@ == reference@
            },
            _ => false,
        }
    }

    pub open spec fn is_consistent(&self) -> bool {
        self.is_replay_of(self.events@)
    }

    /// Rebuilds a deposit from its events. Fails when no event initialised
    /// it.
    pub fn try_from_events(events: Vec<DepositEvent>) -> (r: Result<Deposit, EntityError>)
        ensures
            r is Ok <==> last_initialized(events@) is Some,
            r matches Ok(d) ==> d.is_replay_of(events@) && d.events@ == events@,
    {
        let mut init: Option<(DepositId, DepositAccountId, UsdCents, String)> = None;
        let n = events.len();
        let mut i: usize = 0;
        while i < n
            invariant
                n == events.len(),
                i <= n,
                init is Some <==> last_initialized(events@.take(i as int)) is Some,
                init matches Some(t) ==> (match last_initialized(events@.take(i as int)) {
                    Some(
                        DepositEvent::Initialized { id, deposit_account_id, amount, reference, .. },
                    ) => t.0 == id && t.1 == deposit_account_id && t.2 == amount && t.3@
                        == reference@,
                    _ => false,
                }),
            decreases n - i,
        {
            assert(events@.take(i + 1).drop_last() =~= events@.take(i as int));
            assert(events@.take(i + 1).last() == events@[i as int]);
            if let DepositEvent::Initialized { id, deposit_account_id, amount, reference, .. } =
                &events[i] {
                init = Some((*id, *deposit_account_id, *amount, reference.clone()));
            }
            i += 1;
        }
        assert(events@.take(n as int) =~= events@);
        match init {
            Some(t) => {
                let (id, deposit_account_id, amount, reference) = t;
                Ok(Deposit { id, deposit_account_id, amount, reference, events })
            },
            None => Err(EntityError::UninitializedField),
        }
    }

    /// The status of the newest event that carries one.
    pub fn status(&self) -> (s: DepositStatus)
        requires
            deposit_status(self.events@) is Some,
        ensures
            Some(s) == deposit_status(self.events@),
    {
        scan_status(&self.events).unwrap()
    }

    /// Records a `StatusUpdated` event, unless the newest status update
    /// already set this status.
    fn update_status(&mut self, status: DepositStatus, audit_info: AuditInfo) -> (r: Idempotent<
        (),
    >)
        ensures
            r is Ignored <==> newest_status_update(old(self).events@) == Some(status),
            r is Ignored ==> *final(self) == *old(self),
            r is Executed ==> final(self).events@ == old(self).events@.push(
                DepositEvent::StatusUpdated { status, audit_info },
            ),
            final(self).id == old(self).id,
            final(self).deposit_account_id == old(self).deposit_account_id,
            final(self).amount == old(self).amount,
            final(self).reference == old(self).reference,
    {
        if scan_status_update(&self.events) == Some(status) {
            return Idempotent::Ignored;
        }
        self.events.push(DepositEvent::StatusUpdated { status, audit_info });
        Idempotent::Executed(())
    }

    /// Reverts the deposit, unless it was ever reverted. A reversal records
    /// a `Reverted` event with a fresh ledger transaction id, then a status
    /// update to `Reverted`; it hands out the reversal data only when that
    /// status update was recorded.
    pub fn revert(&mut self, audit_info: AuditInfo) -> (r: Idempotent<DepositReversalData>)
        ensures
            has_reverted(old(self).events@) ==> r is Ignored && *final(self) == *old(self),
            !has_reverted(old(self).events@) ==> {
                    let tx = final(self).events@[old(self).events@.len() as int]->Reverted_ledger_tx_id;
                    let reverted = old(self).events@.push(
                        DepositEvent::Reverted { ledger_tx_id: tx, audit_info },
                    );
                    &&& (r is Executed <==> newest_status_update(old(self).events@) != Some(
                        DepositStatus::Reverted,
                    ))
                    &&& final(self).events@ == if r is Executed {
                        reverted.push(
                            DepositEvent::StatusUpdated {
                                status: DepositStatus::Reverted,
                                audit_info,
                            },
                        )
                    } else {
                        reverted
                    }
                    &&& r matches Idempotent::Executed(data) ==> {
                        &&& data.ledger_tx_id == tx
                        &&& data.credit_account_id == old(self).deposit_account_id
                        &&& data.amount == old(self).amount
                        &&& data.correlation_id@ == uuid_text(old(self).id.bits)
                        &&& data.external_id@ == "lana:deposit:"@ + uuid_text(old(self).id.bits)
                            + ":reverted"@
                    }
                },
            final(self).id == old(self).id,
            final(self).deposit_account_id == old(self).deposit_account_id,
            final(self).amount == old(self).amount,
            final(self).reference == old(self).reference,
            old(self).is_consistent() ==> final(self).is_consistent(),
    {
        if scan_reverted(&self.events) {
            return Idempotent::Ignored;
        }
        let ledger_tx_id = EntityId::new();
        let ghost old_events = self.events@;
        self.events.push(DepositEvent::Reverted { ledger_tx_id, audit_info: audit_info.clone() });
        proof {
            assert(self.events@.drop_last() =~= old_events);
            assert(last_initialized(self.events@) == last_initialized(old_events));
        }
        let r = self.update_status(DepositStatus::Reverted, audit_info);
        proof {
            let e = self.events@;
            if r is Executed {
                assert(e.drop_last().drop_last() =~= old_events);
                assert(e.drop_last() =~= old_events.push(
                    DepositEvent::Reverted { ledger_tx_id, audit_info },
                ));
                assert(last_initialized(e) == last_initialized(e.drop_last()));
            }
        }
        if r.did_execute() {
            let correlation_id = self.id.to_string();
            let external_id = tagged_id("lana:deposit:", self.id, ":reverted");
            return Idempotent::Executed(
                DepositReversalData {
                    ledger_tx_id,
                    credit_account_id: self.deposit_account_id,
                    amount: self.amount,
                    correlation_id,
                    external_id,
                },
            );
        }
        Idempotent::Ignored
    }
}

/// The request that creates a deposit.
pub struct NewDeposit {
    pub id: DepositId,
    pub ledger_transaction_id: CalaTransactionId,
    pub deposit_account_id: DepositAccountId,
    pub amount: UsdCents,
    pub reference: Option<String>,
    pub audit_info: AuditInfo,
}

pub type NewDepositBuilderError = BuilderError;

/// Collects the fields of a `NewDeposit`; every field must be set, and the
/// amount must not be zero.
pub struct NewDepositBuilder {
    pub id: Option<DepositId>,
    pub ledger_transaction_id: Option<CalaTransactionId>,
    pub deposit_account_id: Option<DepositAccountId>,
    pub amount: Option<UsdCents>,
    pub reference: Option<Option<String>>,
    pub audit_info: Option<AuditInfo>,
}

/// The reference a deposit is recorded with: the given one, or the
/// deposit's id when none or an empty one is given.
pub open spec fn effective_reference(id: EntityId, reference: Option<String>) -> Seq<char> {
    match reference {
        Some(r) => if r@.len() == 0 {
            uuid_text(id.bits)
        } else {
            r@
        },
        None => uuid_text(id.bits),
    }
}

impl NewDeposit {
    pub fn builder() -> (b: NewDepositBuilder)
        ensures
            b.id is None && b.ledger_transaction_id is None && b.deposit_account_id is None
                && b.amount is None && b.reference is None && b.audit_info is None,
    {
        NewDepositBuilder {
            id: None,
            ledger_transaction_id: None,
            deposit_account_id: None,
            amount: None,
            reference: None,
            audit_info: None,
        }
    }

    pub fn reference(&self) -> (r: String)
        ensures
            r@ == effective_reference(self.id, self.reference),
    {
        match &self.reference {
            None => self.id.to_string(),
            Some(reference) => {
                if reference.as_str().is_empty() {
                    self.id.to_string()
                } else {
                    reference.clone()
                }
            },
        }
    }

    /// The single `Initialized` event of a new, confirmed deposit.
    pub fn into_events(self) -> (events: Vec<DepositEvent>)
        ensures
            events@.len() == 1,
            events@[0] matches DepositEvent::Initialized {
                id,
                ledger_tx_id,
                deposit_account_id,
                amount,
                reference,
                status,
                audit_info,
            } && id == self.id && ledger_tx_id == self.ledger_transaction_id && deposit_account_id
                == self.deposit_account_id && amount == self.amount && reference@
                == effective_reference(self.id, self.reference) && status
                == DepositStatus::Confirmed && audit_info == self.audit_info,
    {
        let reference = self.reference();
        let mut v = Vec::new();
        v.push(
            DepositEvent::Initialized {
                id: self.id,
                ledger_tx_id: self.ledger_transaction_id,
                deposit_account_id: self.deposit_account_id,
                amount: self.amount,
                reference,
                status: DepositStatus::Confirmed,
                audit_info: self.audit_info,
            },
        );
        v
    }
}

impl NewDepositBuilder {
    pub fn id(self, id: DepositId) -> (b: Self)
        ensures
            b == (NewDepositBuilder { id: Some(id), ..self }),
    {
        NewDepositBuilder { id: Some(id), ..self }
    }

    pub fn ledger_transaction_id(self, ledger_transaction_id: CalaTransactionId) -> (b: Self)
        ensures
            b == (NewDepositBuilder { ledger_transaction_id: Some(ledger_transaction_id), ..self }),
    {
        NewDepositBuilder { ledger_transaction_id: Some(ledger_transaction_id), ..self }
    }

    pub fn deposit_account_id(self, deposit_account_id: DepositAccountId) -> (b: Self)
        ensures
            b == (NewDepositBuilder { deposit_account_id: Some(deposit_account_id), ..self }),
    {
        NewDepositBuilder { deposit_account_id: Some(deposit_account_id), ..self }
    }

    pub fn amount(self, amount: UsdCents) -> (b: Self)
        ensures
            b == (NewDepositBuilder { amount: Some(amount), ..self }),
    {
        NewDepositBuilder { amount: Some(amount), ..self }
    }

    pub fn reference(self, reference: Option<String>) -> (b: Self)
        ensures
            b == (NewDepositBuilder { reference: Some(reference), ..self }),
    {
        NewDepositBuilder { reference: Some(reference), ..self }
    }

    pub fn audit_info(self, audit_info: AuditInfo) -> (b: Self)
        ensures
            b == (NewDepositBuilder { audit_info: Some(audit_info), ..self }),
    {
        NewDepositBuilder { audit_info: Some(audit_info), ..self }
    }

    /// Builds the request. A zero amount fails validation (checked first);
    /// otherwise it fails exactly when a field is unset.
    pub fn build(self) -> (r: Result<NewDeposit, NewDepositBuilderError>)
        ensures
            (self.amount matches Some(a) && a.cents == 0) ==> (r matches Err(
                BuilderError::ValidationError(m),
            ) && m@ == "Deposit amount cannot be zero"@),
            !(self.amount matches Some(a) && a.cents == 0) ==> {
                &&& r is Ok <==> (self.id is Some && self.ledger_transaction_id is Some
                    && self.deposit_account_id is Some && self.amount is Some
                    && self.reference is Some && self.audit_info is Some)
                &&& r matches Err(e) ==> e is UninitializedField
                &&& r matches Ok(n) ==> n == (NewDeposit {
                    id: self.id->0,
                    ledger_transaction_id: self.ledger_transaction_id->0,
                    deposit_account_id: self.deposit_account_id->0,
                    amount: self.amount->0,
                    reference: self.reference->0,
                    audit_info: self.audit_info->0,
                })
            },
    {
        if let Some(amount) = &self.amount {
            if amount.is_zero() {
                return Err(BuilderError::ValidationError("Deposit amount cannot be zero".to_owned()));
            }
        }
        match (
            self.id,
            self.ledger_transaction_id,
            self.deposit_account_id,
            self.amount,
            self.reference,
            self.audit_info,
        ) {
            (
                Some(id),
                Some(ledger_transaction_id),
                Some(deposit_account_id),
                Some(amount),
                Some(reference),
                Some(audit_info),
            ) => Ok(
                NewDeposit {
                    id,
                    ledger_transaction_id,
                    deposit_account_id,
                    amount,
                    reference,
                    audit_info,
                },
            ),
            _ => Err(BuilderError::UninitializedField("deposit field")),
        }
    }
}

/// Once a reversal has been recorded, every further reversal is ignored.
pub proof fn revert_twice_is_ignored(
    events: Seq<DepositEvent>,
    ledger_tx_id: CalaTransactionId,
    audit_info: AuditInfo,
)
    ensures
        has_reverted(events.push(DepositEvent::Reverted { ledger_tx_id, audit_info })),
{
    let e = events.push(DepositEvent::Reverted { ledger_tx_id, audit_info });
    assert(e[events.len() as int] is Reverted);
}

/// A deposit rebuilt from the events of a new request (what `into_events`
/// gives) exists and has the request's id, account, amount and effective
/// reference.
pub proof fn new_deposit_round_trip(request: NewDeposit, events: Seq<DepositEvent>, deposit: Deposit)
    requires
        events.len() == 1,
        events[0] matches DepositEvent::Initialized {
            id,
            ledger_tx_id,
            deposit_account_id,
            amount,
            reference,
            status,
            audit_info,
        } && id == request.id && ledger_tx_id == request.ledger_transaction_id && deposit_account_id
            == request.deposit_account_id && amount == request.amount && reference@
            == effective_reference(request.id, request.reference) && status
            == DepositStatus::Confirmed && audit_info == request.audit_info,
    ensures
        last_initialized(events) is Some,
        deposit.is_replay_of(events) ==> {
            &&& deposit.id == request.id
            &&& deposit.deposit_account_id == request.deposit_account_id
            &&& deposit.amount == request.amount
            &&& deposit.reference@ == effective_reference(request.id, request.reference)
        },
{
    assert(events.drop_last() =~= Seq::<DepositEvent>::empty());
}

} // verus!
