//! Deposit accounts: an event-sourced entity whose status can be updated
//! (and frozen) idempotently.

use vstd::prelude::*;

use crate::primitives::{
    AuditInfo, BuilderError, CalaAccountId, DepositAccountHolderId, DepositAccountId, EntityError, Idempotent,
};
use crate::public_id::PublicId;

verus! {

#[derive(Clone, Copy, Debug, PartialEq, Eq, Structural)]
pub enum DepositAccountStatus {
    Active,
    Inactive,
    Frozen,
    Closed,
}

#[derive(Debug)]
pub enum DepositAccountEvent {
    Initialized {
        id: DepositAccountId,
        account_holder_id: DepositAccountHolderId,
        ledger_account_id: CalaAccountId,
        frozen_deposit_account_id: CalaAccountId,
        status: DepositAccountStatus,
        public_id: PublicId,
        audit_info: AuditInfo,
    },
    AccountStatusUpdated { status: DepositAccountStatus, audit_info: AuditInfo },
}

/// The status carried by the newest `AccountStatusUpdated` event, if any.
pub open spec fn last_status_update(events: Seq<DepositAccountEvent>) -> Option<
    DepositAccountStatus,
>
    decreases events.len(),
{
    if events.len() == 0 {
        None
    } else {
        match events.last() {
            DepositAccountEvent::AccountStatusUpdated { status, .. } => Some(status),
            _ => last_status_update(events.drop_last()),
        }
    }
}

/// The newest `Initialized` event, if any.
pub open spec fn last_initialized(events: Seq<DepositAccountEvent>) -> Option<DepositAccountEvent>
    decreases events.len(),
{
    if events.len() == 0 {
        None
    } else {
        match events.last() {
            DepositAccountEvent::Initialized { .. } => Some(events.last()),
            _ => last_initialized(events.drop_last()),
        }
    }
}

/// The status carried by an event (every event carries one).
pub open spec fn event_status(e: DepositAccountEvent) -> DepositAccountStatus {
    match e {
        DepositAccountEvent::Initialized { status, .. } => status,
        DepositAccountEvent::AccountStatusUpdated { status, .. } => status,
    }
}

pub struct DepositAccount {
    pub id: DepositAccountId,
    pub account_holder_id: DepositAccountHolderId,
    pub ledger_account_id: CalaAccountId,
    pub frozen_deposit_account_id: CalaAccountId,
    pub status: DepositAccountStatus,
    pub public_id: PublicId,
    pub events: Vec<DepositAccountEvent>,
}

impl DepositAccount {
    /// The entity's events, oldest first.
    pub open spec fn event_log(&self) -> Seq<DepositAccountEvent> {
        self.events@
    }

    /// The fields are those that replaying `events` gives: identifiers and
    /// public id from the newest `Initialized` event, status from the newest
    /// event.
    pub open spec fn is_replay_of(&self, events: Seq<DepositAccountEvent>) -> bool {
        match last_initialized(events) {
            Some(
                DepositAccountEvent::Initialized {
                    id,
                    account_holder_id,
                    ledger_account_id,
                    frozen_deposit_account_id,
                    public_id,
                    ..
                },
            ) => {
                &&& self.id == id
                &&& self.account_holder_id == account_holder_id
                &&& self.ledger_account_id == ledger_account_id
                &&& self.frozen_deposit_account_id == frozen_deposit_account_id
                &&& self.public_id@ == public_id@
                &&& self.status == event_status(events.last())
            },
            _ => false,
        }
    }

    /// The fields agree with the entity's own events.
    pub open spec fn is_consistent(&self) -> bool {
        self.is_replay_of(self.event_log())
    }

    pub fn events(&self) -> (e: &Vec<DepositAccountEvent>)
        ensures
            e@ == self.event_log(),
    {
        &self.events
    }

    /// Rebuilds an account from its events. Fails when no event initialised
    /// it.
    pub fn try_from_events(events: Vec<DepositAccountEvent>) -> (r: Result<DepositAccount, EntityError>)
        ensures
            r is Ok <==> last_initialized(events@) is Some,
            r matches Ok(a) ==> a.is_replay_of(events@) && a.event_log() == events@,
    {
        let mut init: Option<
            (DepositAccountId, DepositAccountHolderId, CalaAccountId, CalaAccountId, PublicId),
        > = None;
        let mut status: Option<DepositAccountStatus> = None;
        let n = events.len();
        let mut i: usize = 0;
        while i < n
            invariant
                n == events.len(),
                i <= n,
                init is Some <==> last_initialized(events@.take(i as int)) is Some,
                init matches Some(t) ==> (match last_initialized(events@.take(i as int)) {
                    Some(
                        DepositAccountEvent::Initialized {
                            id,
                            account_holder_id,
                            ledger_account_id,
                            frozen_deposit_account_id,
                            public_id,
                            ..
                        },
                    ) => t.0 == id && t.1 == account_holder_id && t.2 == ledger_account_id
                        && t.3 == frozen_deposit_account_id && t.4@ == public_id@,
                    _ => false,
                }),
                i == 0 <==> status is None,
                i > 0 ==> status == Some(event_status(events@[i - 1])),
            decreases n - i,
        {
            assert(events@.take(i + 1).drop_last() =~= events@.take(i as int));
            assert(events@.take(i + 1).last() == events@[i as int]);
            match &events[i] {
                DepositAccountEvent::Initialized {
                    id,
                    account_holder_id,
                    ledger_account_id,
                    frozen_deposit_account_id,
                    status: s,
                    public_id,
                    ..
                } => {
                    init = Some(
                        (
                            *id,
                            *account_holder_id,
                            *ledger_account_id,
                            *frozen_deposit_account_id,
                            public_id.clone(),
                        ),
                    );
                    status = Some(*s);
                },
                DepositAccountEvent::AccountStatusUpdated { status: s, .. } => {
                    status = Some(*s);
                },
            }
            i += 1;
        }
        assert(events@.take(n as int) =~= events@);
        match init {
            Some(t) => {
                let (id, account_holder_id, ledger_account_id, frozen_deposit_account_id, public_id) = t;
                Ok(
                    DepositAccount {
                        id,
                        account_holder_id,
                        ledger_account_id,
                        frozen_deposit_account_id,
                        status: status.unwrap(),
                        public_id,
                        events,
                    },
                )
            },
            None => Err(EntityError::UninitializedField),
        }
    }

    /// Sets the status, unless the newest status update already set this
    /// status; an update to another status in between re-arms it.
    pub fn update_status(&mut self, status: DepositAccountStatus, audit_info: AuditInfo) -> (r:
        Idempotent<()>)
        ensures
            r is Ignored <==> last_status_update(old(self).event_log()) == Some(status),
            r is Ignored ==> *final(self) == *old(self),
            r is Executed ==> {
                &&& final(self).event_log() == old(self).event_log().push(
                    DepositAccountEvent::AccountStatusUpdated { status, audit_info },
                )
                &&& final(self).status == status
                &&& final(self).id == old(self).id
                &&& final(self).account_holder_id == old(self).account_holder_id
                &&& final(self).ledger_account_id == old(self).ledger_account_id
                &&& final(self).frozen_deposit_account_id == old(self).frozen_deposit_account_id
                &&& final(self).public_id == old(self).public_id
            },
            old(self).is_consistent() ==> final(self).is_consistent(),
    {
        if newest_status_update(&self.events) == Some(status) {
            return Idempotent::Ignored;
        }
        proof {
            lemma_last_initialized_push_update(self.events@, status, audit_info);
        }
        self.events.push(DepositAccountEvent::AccountStatusUpdated { status, audit_info });
        self.status = status;
        Idempotent::Executed(())
    }

    /// Freezes the account: a status update to `Frozen`.
    pub fn freeze(&mut self, audit_info: AuditInfo) -> (r: Idempotent<()>)
        ensures
            r is Ignored <==> last_status_update(old(self).event_log()) == Some(
                DepositAccountStatus::Frozen,
            ),
            r is Ignored ==> *final(self) == *old(self),
            r is Executed ==> {
                &&& final(self).event_log() == old(self).event_log().push(
                    DepositAccountEvent::AccountStatusUpdated {
                        status: DepositAccountStatus::Frozen,
                        audit_info,
                    },
                )
                &&& final(self).status == DepositAccountStatus::Frozen
                &&& final(self).id == old(self).id
                &&& final(self).public_id == old(self).public_id
            },
            old(self).is_consistent() ==> final(self).is_consistent(),
    {
        self.update_status(DepositAccountStatus::Frozen, audit_info)
    }
}

/// Scans the events from the newest for a status update.
fn newest_status_update(events: &Vec<DepositAccountEvent>) -> (r: Option<DepositAccountStatus>)
    ensures
        r == last_status_update(events@),
{
    let mut i = events.len();
    assert(events@.take(i as int) =~= events@);
    while i > 0
        invariant
            i <= events.len(),
            last_status_update(events@) == last_status_update(events@.take(i as int)),
        decreases i,
    {
        assert(events@.take(i as int).drop_last() =~= events@.take(i - 1));
        assert(events@.take(i as int).last() == events@[i - 1]);
        if let DepositAccountEvent::AccountStatusUpdated { status, .. } = &events[i - 1] {
            return Some(*status);
        }
        i -= 1;
    }
    None
}

proof fn lemma_last_initialized_push_update(
    events: Seq<DepositAccountEvent>,
    status: DepositAccountStatus,
    audit_info: AuditInfo,
)
    ensures
        last_initialized(events.push(DepositAccountEvent::AccountStatusUpdated { status, audit_info }))
            == last_initialized(events),
{
    assert(events.push(DepositAccountEvent::AccountStatusUpdated { status, audit_info }).drop_last()
        =~= events);
}

/// What is needed to open a deposit account.
pub struct NewDepositAccount {
    pub id: DepositAccountId,
    pub account_holder_id: DepositAccountHolderId,
    pub ledger_account_id: CalaAccountId,
    pub frozen_deposit_account_id: CalaAccountId,
    pub active: bool,
    pub public_id: PublicId,
    pub audit_info: AuditInfo,
}

pub type NewDepositAccountBuilderError = BuilderError;

/// Collects the fields of a `NewDepositAccount`; every field must be set.
pub struct NewDepositAccountBuilder {
    pub id: Option<DepositAccountId>,
    pub account_holder_id: Option<DepositAccountHolderId>,
    pub ledger_account_id: Option<CalaAccountId>,
    pub frozen_deposit_account_id: Option<CalaAccountId>,
    pub active: Option<bool>,
    pub public_id: Option<PublicId>,
    pub audit_info: Option<AuditInfo>,
}

impl NewDepositAccount {
    pub fn builder() -> (b: NewDepositAccountBuilder)
        ensures
            b.id is None && b.account_holder_id is None && b.ledger_account_id is None
                && b.frozen_deposit_account_id is None && b.active is None && b.public_id is None
                && b.audit_info is None,
    {
        NewDepositAccountBuilder {
            id: None,
            account_holder_id: None,
            ledger_account_id: None,
            frozen_deposit_account_id: None,
            active: None,
            public_id: None,
            audit_info: None,
        }
    }

    /// The single `Initialized` event that opens the account; its status is
    /// `Active` when the account is opened active, else `Inactive`.
    pub fn into_events(self) -> (events: Vec<DepositAccountEvent>)
        ensures
            events@ == seq![
                DepositAccountEvent::Initialized {
                    id: self.id,
                    account_holder_id: self.account_holder_id,
                    ledger_account_id: self.ledger_account_id,
                    frozen_deposit_account_id: self.frozen_deposit_account_id,
                    status: if self.active {
                        DepositAccountStatus::Active
                    } else {
                        DepositAccountStatus::Inactive
                    },
                    public_id: self.public_id,
                    audit_info: self.audit_info,
                },
            ],
    {
        let status = if self.active {
            DepositAccountStatus::Active
        } else {
            DepositAccountStatus::Inactive
        };
        let mut v = Vec::new();
        v.push(
            DepositAccountEvent::Initialized {
                id: self.id,
                account_holder_id: self.account_holder_id,
                ledger_account_id: self.ledger_account_id,
                frozen_deposit_account_id: self.frozen_deposit_account_id,
                status,
                public_id: self.public_id,
                audit_info: self.audit_info,
            },
        );
        v
    }
}

impl NewDepositAccountBuilder {
    pub fn id(self, id: DepositAccountId) -> (b: Self)
        ensures
            b == (NewDepositAccountBuilder { id: Some(id), ..self }),
    {
        NewDepositAccountBuilder { id: Some(id), ..self }
    }

    pub fn account_holder_id(self, account_holder_id: DepositAccountHolderId) -> (b: Self)
        ensures
            b == (NewDepositAccountBuilder { account_holder_id: Some(account_holder_id), ..self }),
    {
        NewDepositAccountBuilder { account_holder_id: Some(account_holder_id), ..self }
    }

    pub fn ledger_account_id(self, ledger_account_id: CalaAccountId) -> (b: Self)
        ensures
            b == (NewDepositAccountBuilder { ledger_account_id: Some(ledger_account_id), ..self }),
    {
        NewDepositAccountBuilder { ledger_account_id: Some(ledger_account_id), ..self }
    }

    pub fn frozen_deposit_account_id(self, frozen_deposit_account_id: CalaAccountId) -> (b: Self)
        ensures
            b == (NewDepositAccountBuilder {
                frozen_deposit_account_id: Some(frozen_deposit_account_id),
                ..self
            }),
    {
        NewDepositAccountBuilder { frozen_deposit_account_id: Some(frozen_deposit_account_id), ..self }
    }

    pub fn active(self, active: bool) -> (b: Self)
        ensures
            b == (NewDepositAccountBuilder { active: Some(active), ..self }),
    {
        NewDepositAccountBuilder { active: Some(active), ..self }
    }

    pub fn public_id(self, public_id: PublicId) -> (b: Self)
        ensures
            b == (NewDepositAccountBuilder { public_id: Some(public_id), ..self }),
    {
        NewDepositAccountBuilder { public_id: Some(public_id), ..self }
    }

    pub fn audit_info(self, audit_info: AuditInfo) -> (b: Self)
        ensures
            b == (NewDepositAccountBuilder { audit_info: Some(audit_info), ..self }),
    {
        NewDepositAccountBuilder { audit_info: Some(audit_info), ..self }
    }

    /// Builds the account request; fails exactly when a field is unset.
    pub fn build(self) -> (r: Result<NewDepositAccount, NewDepositAccountBuilderError>)
        ensures
            r is Ok <==> (self.id is Some && self.account_holder_id is Some
                && self.ledger_account_id is Some && self.frozen_deposit_account_id is Some
                && self.active is Some && self.public_id is Some && self.audit_info is Some),
            r matches Ok(n) ==> n == (NewDepositAccount {
                id: self.id->0,
                account_holder_id: self.account_holder_id->0,
                ledger_account_id: self.ledger_account_id->0,
                frozen_deposit_account_id: self.frozen_deposit_account_id->0,
                active: self.active->0,
                public_id: self.public_id->0,
                audit_info: self.audit_info->0,
            }),
            r matches Err(e) ==> e is UninitializedField,
    {
        match (
            self.id,
            self.account_holder_id,
            self.ledger_account_id,
            self.frozen_deposit_account_id,
            self.active,
            self.public_id,
            self.audit_info,
        ) {
            (
                Some(id),
                Some(account_holder_id),
                Some(ledger_account_id),
                Some(frozen_deposit_account_id),
                Some(active),
                Some(public_id),
                Some(audit_info),
            ) => Ok(
                NewDepositAccount {
                    id,
                    account_holder_id,
                    ledger_account_id,
                    frozen_deposit_account_id,
                    active,
                    public_id,
                    audit_info,
                },
            ),
            _ => Err(BuilderError::UninitializedField("deposit account field")),
        }
    }
}

/// After a status update has been recorded, updating to the same status
/// again is ignored.
pub proof fn update_status_twice_is_ignored(
    events: Seq<DepositAccountEvent>,
    status: DepositAccountStatus,
    audit_info: AuditInfo,
)
    ensures
        last_status_update(events.push(DepositAccountEvent::AccountStatusUpdated { status, audit_info }))
            == Some(status),
{
}

/// An account rebuilt from the events of a new request (what `into_events`
/// gives) exists and has the request's identifiers and public id; it is
/// active exactly when the request asked for it.
pub proof fn new_deposit_account_round_trip(request: NewDepositAccount, account: DepositAccount)
    ensures
        ({
            let events = seq![
                DepositAccountEvent::Initialized {
                    id: request.id,
                    account_holder_id: request.account_holder_id,
                    ledger_account_id: request.ledger_account_id,
                    frozen_deposit_account_id: request.frozen_deposit_account_id,
                    status: if request.active {
                        DepositAccountStatus::Active
                    } else {
                        DepositAccountStatus::Inactive
                    },
                    public_id: request.public_id,
                    audit_info: request.audit_info,
                },
            ];
            &&& last_initialized(events) is Some
            &&& account.is_replay_of(events) ==> {
                &&& account.id == request.id
                &&& account.account_holder_id == request.account_holder_id
                &&& account.ledger_account_id == request.ledger_account_id
                &&& account.frozen_deposit_account_id == request.frozen_deposit_account_id
                &&& account.public_id@ == request.public_id@
                &&& account.status == if request.active {
                    DepositAccountStatus::Active
                } else {
                    DepositAccountStatus::Inactive
                }
            }
        }),
{
}

} // verus!
