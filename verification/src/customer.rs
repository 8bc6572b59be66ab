//! Customers: an event-sourced entity with KYC decisions, contact updates,
//! account status and activity tracking, and the customer configuration.

use vstd::prelude::*;

use crate::primitives::{
    now, AuditInfo, AuthenticationId, BuilderError, CustomerId, Duration, EntityError, Idempotent,
    Timestamp, MICROS_PER_DAY,
};
use crate::public_id::PublicId;

verus! {

// ---------------------------------------------------------------------------
// Configuration
// ---------------------------------------------------------------------------

pub struct CustomerConfig {
    pub inactivity_threshold_days: u32,
    pub escheatment_threshold_days: u32,
}

/// Days without activity after which a customer counts as inactive.
pub fn default_inactivity_threshold_days() -> (d: u32)
    ensures
        d == 365,
{
    365
}

/// Days without activity after which a customer's funds are escheatment
/// candidates.
pub fn default_escheatment_threshold_days() -> (d: u32)
    ensures
        d == 3650,
{
    3650
}

impl Default for CustomerConfig {
    fn default() -> (c: CustomerConfig)
        ensures
            c.inactivity_threshold_days == 365,
            c.escheatment_threshold_days == 3650,
    {
        CustomerConfig {
            inactivity_threshold_days: default_inactivity_threshold_days(),
            escheatment_threshold_days: default_escheatment_threshold_days(),
        }
    }
}

impl Clone for CustomerConfig {
    fn clone(&self) -> (c: CustomerConfig)
        ensures
            c == *self,
    {
        CustomerConfig {
            inactivity_threshold_days: self.inactivity_threshold_days,
            escheatment_threshold_days: self.escheatment_threshold_days,
        }
    }
}

// ---------------------------------------------------------------------------
// Primitives
// ---------------------------------------------------------------------------

#[derive(Clone, Copy, Debug, PartialEq, Eq, Structural)]
pub enum AccountStatus {
    Inactive,
    Active,
}

impl Default for AccountStatus {
    fn default() -> (s: AccountStatus)
        ensures
            s == AccountStatus::Inactive,
    {
        AccountStatus::Inactive
    }
}

impl AccountStatus {
    pub fn is_inactive(&self) -> (b: bool)
        ensures
            b == (*self == AccountStatus::Inactive),
    {
        match self {
            AccountStatus::Inactive => true,
            AccountStatus::Active => false,
        }
    }
}

#[derive(Clone, Copy, Debug, PartialEq, Eq, Structural)]
pub enum KycLevel {
    NotKyced,
    Basic,
    Advanced,
}

#[derive(Clone, Copy, Debug, PartialEq, Eq, Structural)]
pub enum CustomerType {
    Individual,
    GovernmentEntity,
    PrivateCompany,
    Bank,
    FinancialInstitution,
    ForeignAgencyOrSubsidiary,
    NonDomiciledCompany,
}

#[derive(Clone, Copy, Debug, PartialEq, Eq, Structural)]
pub enum ActivityType {
    AccountView,
    Transaction,
}

#[derive(Clone, Copy, Debug, PartialEq, Eq, Structural)]
pub enum KycVerification {
    PendingVerification,
    Verified,
    Rejected,
}

/// What the customer module announces to other modules.
#[derive(Debug)]
pub enum CoreCustomerEvent {
    CustomerCreated { id: CustomerId, email: String, customer_type: CustomerType },
    CustomerAccountKycVerificationUpdated {
        id: CustomerId,
        kyc_verification: KycVerification,
        customer_type: CustomerType,
    },
    CustomerEmailUpdated { id: CustomerId, email: String },
}

// ---------------------------------------------------------------------------
// Events and their replay
// ---------------------------------------------------------------------------

#[derive(Debug)]
pub enum CustomerEvent {
    Initialized {
        id: CustomerId,
        email: String,
        telegram_id: String,
        customer_type: CustomerType,
        public_id: PublicId,
        audit_info: AuditInfo,
    },
    AuthenticationIdUpdated { authentication_id: AuthenticationId },
    KycStarted { applicant_id: String, audit_info: AuditInfo },
    KycApproved { applicant_id: String, level: KycLevel, audit_info: AuditInfo },
    KycDeclined { applicant_id: String, audit_info: AuditInfo },
    AccountStatusUpdated { status: AccountStatus, audit_info: AuditInfo },
    ActivityRecorded { activity_type: ActivityType, audit_info: AuditInfo },
    TelegramIdUpdated { telegram_id: String, audit_info: AuditInfo },
    EmailUpdated { email: String, audit_info: AuditInfo },
}

/// The fields that replaying events has set so far (`None`: not set yet).
pub struct CustomerReplay {
    pub id: Option<CustomerId>,
    pub email: Option<Seq<char>>,
    pub telegram_id: Option<Seq<char>>,
    pub customer_type: Option<CustomerType>,
    pub public_id: Option<Seq<char>>,
    pub level: Option<KycLevel>,
    pub authentication_id: Option<AuthenticationId>,
    pub applicant_id: Option<Seq<char>>,
    pub status: Option<AccountStatus>,
}

pub open spec fn empty_replay() -> CustomerReplay {
    CustomerReplay {
        id: None,
        email: None,
        telegram_id: None,
        customer_type: None,
        public_id: None,
        level: None,
        authentication_id: None,
        applicant_id: None,
        status: None,
    }
}

/// How one event changes the replayed fields.
pub open spec fn replay_step(r: CustomerReplay, e: CustomerEvent) -> CustomerReplay {
    match e {
        CustomerEvent::Initialized { id, email, telegram_id, customer_type, public_id, .. } =>
            CustomerReplay {
            id: Some(id),
            email: Some(email@),
            telegram_id: Some(telegram_id@),
            customer_type: Some(customer_type),
            public_id: Some(public_id@),
            level: Some(KycLevel::NotKyced),
            ..r
        },
        CustomerEvent::AuthenticationIdUpdated { authentication_id } => CustomerReplay {
            authentication_id: Some(authentication_id),
            ..r
        },
        CustomerEvent::KycStarted { applicant_id, .. } => CustomerReplay {
            applicant_id: Some(applicant_id@),
            ..r
        },
        CustomerEvent::KycApproved { applicant_id, level, .. } => CustomerReplay {
            applicant_id: Some(applicant_id@),
            level: Some(level),
            ..r
        },
        CustomerEvent::KycDeclined { applicant_id, .. } => CustomerReplay {
            applicant_id: Some(applicant_id@),
            ..r
        },
        CustomerEvent::AccountStatusUpdated { status, .. } => CustomerReplay {
            status: Some(status),
            ..r
        },
        CustomerEvent::TelegramIdUpdated { telegram_id, .. } => CustomerReplay {
            telegram_id: Some(telegram_id@),
            ..r
        },
        CustomerEvent::EmailUpdated { email, .. } => CustomerReplay { email: Some(email@), ..r },
        CustomerEvent::ActivityRecorded { .. } => r,
    }
}

/// The fields set by replaying `events` from the oldest.
pub open spec fn replay(events: Seq<CustomerEvent>) -> CustomerReplay
    decreases events.len(),
{
    if events.len() == 0 {
        empty_replay()
    } else {
        replay_step(replay(events.drop_last()), events.last())
    }
}

/// Whether the newest KYC decision is an approval (`Some(true)`), a decline
/// (`Some(false)`), or there is none.
pub open spec fn newest_kyc_decision(events: Seq<CustomerEvent>) -> Option<bool>
    decreases events.len(),
{
    if events.len() == 0 {
        None
    } else {
        match events.last() {
            CustomerEvent::KycApproved { .. } => Some(true),
            CustomerEvent::KycDeclined { .. } => Some(false),
            _ => newest_kyc_decision(events.drop_last()),
        }
    }
}

/// The email of the newest `EmailUpdated` event, if any.
pub open spec fn newest_email_update(events: Seq<CustomerEvent>) -> Option<Seq<char>>
    decreases events.len(),
{
    if events.len() == 0 {
        None
    } else {
        match events.last() {
            CustomerEvent::EmailUpdated { email, .. } => Some(email@),
            _ => newest_email_update(events.drop_last()),
        }
    }
}

pub open spec fn has_authentication_id_update(
    events: Seq<CustomerEvent>,
    authentication_id: AuthenticationId,
) -> bool {
    exists|i: int|
        0 <= i < events.len() && #[trigger] events[i] == (CustomerEvent::AuthenticationIdUpdated {
            authentication_id,
        })
}

pub open spec fn has_status_update(events: Seq<CustomerEvent>, status: AccountStatus) -> bool {
    exists|i: int|
        0 <= i < events.len() && (#[trigger] events[i] matches CustomerEvent::AccountStatusUpdated {
            status: s,
            ..
        } && s == status)
}

pub open spec fn has_telegram_id_update(events: Seq<CustomerEvent>, telegram_id: Seq<char>) -> bool {
    exists|i: int|
        0 <= i < events.len() && (#[trigger] events[i] matches CustomerEvent::TelegramIdUpdated {
            telegram_id: t,
            ..
        } && t@ == telegram_id)
}

pub open spec fn has_activity(events: Seq<CustomerEvent>, activity_type: ActivityType) -> bool {
    exists|i: int|
        0 <= i < events.len() && (#[trigger] events[i] matches CustomerEvent::ActivityRecorded {
            activity_type: a,
            ..
        } && a == activity_type)
}

pub open spec fn opt_view(o: Option<String>) -> Option<Seq<char>> {
    match o {
        Some(s) => Some(s@),
        None => None,
    }
}

// ---------------------------------------------------------------------------
// The entity
// ---------------------------------------------------------------------------

pub struct Customer {
    pub id: CustomerId,
    pub authentication_id: Option<AuthenticationId>,
    pub email: String,
    pub telegram_id: String,
    pub status: AccountStatus,
    pub level: KycLevel,
    pub customer_type: CustomerType,
    pub applicant_id: Option<String>,
    pub public_id: PublicId,
    pub last_activity: Option<Timestamp>,
    pub events: Vec<CustomerEvent>,
}

/// Whether a customer is inactive at instant `now`: it is, unless its last
/// activity lies less than `threshold` before `now`.
pub open spec fn status_at(
    last_activity: Option<Timestamp>,
    now: Timestamp,
    threshold: Duration,
) -> AccountStatus {
    match last_activity {
        Some(t) => if now - t >= threshold.micros {
            AccountStatus::Inactive
        } else {
            AccountStatus::Active
        },
        None => AccountStatus::Inactive,
    }
}

/// Inactivity lasts: a customer inactive at one instant stays inactive at
/// every later instant until a new activity is recorded, and a customer
/// active at one instant was active at every earlier instant since the last
/// activity.
pub proof fn inactivity_persists(
    last_activity: Option<Timestamp>,
    earlier: Timestamp,
    later: Timestamp,
    threshold: Duration,
)
    requires
        earlier <= later,
    ensures
        status_at(last_activity, earlier, threshold) == AccountStatus::Inactive ==> status_at(
            last_activity,
            later,
            threshold,
        ) == AccountStatus::Inactive,
{
}

impl Customer {
    /// The fields other than `last_activity` (which no event carries) are
    /// those that replaying `events` gives.
    pub open spec fn is_replay_of(&self, events: Seq<CustomerEvent>) -> bool {
        let r = replay(events);
        &&& r.id == Some(self.id)
        &&& r.email == Some(self.email@)
        &&& r.telegram_id == Some(self.telegram_id@)
        &&& r.customer_type == Some(self.customer_type)
        &&& r.public_id == Some(self.public_id@)
        &&& r.level == Some(self.level)
        &&& r.authentication_id == self.authentication_id
        &&& r.applicant_id == opt_view(self.applicant_id)
        &&& self.status == match r.status {
            Some(s) => s,
            None => AccountStatus::Inactive,
        }
    }

    /// The fields agree with the entity's own events.
    pub open spec fn is_consistent(&self) -> bool {
        self.is_replay_of(self.events@)
    }

    /// Rebuilds a customer from its events; `last_activity` starts unset.
    /// Fails when no event initialised it.
    pub fn try_from_events(events: Vec<CustomerEvent>) -> (r: Result<Customer, EntityError>)
        ensures
            r is Ok <==> replay(events@).id is Some,
            r matches Ok(c) ==> c.is_replay_of(events@) && c.events@ == events@
                && c.last_activity is None,
    {
        let mut id: Option<CustomerId> = None;
        let mut email: Option<String> = None;
        let mut telegram_id: Option<String> = None;
        let mut customer_type: Option<CustomerType> = None;
        let mut public_id: Option<PublicId> = None;
        let mut level: Option<KycLevel> = None;
        let mut authentication_id: Option<AuthenticationId> = None;
        let mut applicant_id: Option<String> = None;
        let mut status: Option<AccountStatus> = None;
        let n = events.len();
        let mut i: usize = 0;
        while i < n
            invariant
                n == events.len(),
                i <= n,
                ({
                    let r = replay(events@.take(i as int));
                    &&& r.id == id
                    &&& r.email == opt_view(email)
                    &&& r.telegram_id == opt_view(telegram_id)
                    &&& r.customer_type == customer_type
                    &&& r.public_id == match public_id {
                        Some(p) => Some(p@),
                        None => None,
                    }
                    &&& r.level == level
                    &&& r.authentication_id == authentication_id
                    &&& r.applicant_id == opt_view(applicant_id)
                    &&& r.status == status
                    &&& r.id is Some ==> (r.email is Some && r.telegram_id is Some
                        && r.customer_type is Some && r.public_id is Some && r.level is Some)
                }),
            decreases n - i,
        {
            assert(events@.take(i + 1).drop_last() =~= events@.take(i as int));
            assert(events@.take(i + 1).last() == events@[i as int]);
            match &events[i] {
                CustomerEvent::Initialized {
                    id: e_id,
                    email: e_email,
                    telegram_id: e_telegram_id,
                    customer_type: e_type,
                    public_id: e_public_id,
                    ..
                } => {
                    id = Some(*e_id);
                    email = Some(e_email.clone());
                    telegram_id = Some(e_telegram_id.clone());
                    customer_type = Some(*e_type);
                    public_id = Some(e_public_id.clone());
                    level = Some(KycLevel::NotKyced);
                },
                CustomerEvent::AuthenticationIdUpdated { authentication_id: a } => {
                    authentication_id = Some(*a);
                },
                CustomerEvent::KycStarted { applicant_id: a, .. } => {
                    applicant_id = Some(a.clone());
                },
                CustomerEvent::KycApproved { applicant_id: a, level: l, .. } => {
                    applicant_id = Some(a.clone());
                    level = Some(*l);
                },
                CustomerEvent::KycDeclined { applicant_id: a, .. } => {
                    applicant_id = Some(a.clone());
                },
                CustomerEvent::AccountStatusUpdated { status: s, .. } => {
                    status = Some(*s);
                },
                CustomerEvent::TelegramIdUpdated { telegram_id: t, .. } => {
                    telegram_id = Some(t.clone());
                },
                CustomerEvent::EmailUpdated { email: e, .. } => {
                    email = Some(e.clone());
                },
                CustomerEvent::ActivityRecorded { .. } => {},
            }
            i += 1;
        }
        assert(events@.take(n as int) =~= events@);
        match (id, email, telegram_id, customer_type, public_id, level) {
            (Some(id), Some(email), Some(telegram_id), Some(customer_type), Some(public_id), Some(level)) => {
                let status = match status {
                    Some(s) => s,
                    None => AccountStatus::Inactive,
                };
                Ok(
                    Customer {
                        id,
                        authentication_id,
                        email,
                        telegram_id,
                        status,
                        level,
                        customer_type,
                        applicant_id,
                        public_id,
                        last_activity: None,
                        events,
                    },
                )
            },
            _ => Err(EntityError::UninitializedField),
        }
    }
}


/// The profile fields of two customers agree (events aside).
pub open spec fn same_profile(a: Customer, b: Customer) -> bool {
    &&& a.id == b.id
    &&& a.authentication_id == b.authentication_id
    &&& a.email == b.email
    &&& a.telegram_id == b.telegram_id
    &&& a.status == b.status
    &&& a.level == b.level
    &&& a.customer_type == b.customer_type
    &&& a.applicant_id == b.applicant_id
    &&& a.public_id == b.public_id
    &&& a.last_activity == b.last_activity
}

proof fn lemma_replay_push(events: Seq<CustomerEvent>, e: CustomerEvent)
    ensures
        replay(events.push(e)) == replay_step(replay(events), e),
{
    assert(events.push(e).drop_last() =~= events);
}

fn scan_kyc_decision(events: &Vec<CustomerEvent>) -> (r: Option<bool>)
    ensures
        r == newest_kyc_decision(events@),
{
    let mut i = events.len();
    assert(events@.take(i as int) =~= events@);
    while i > 0
        invariant
            i <= events.len(),
            newest_kyc_decision(events@) == newest_kyc_decision(events@.take(i as int)),
        decreases i,
    {
        assert(events@.take(i as int).drop_last() =~= events@.take(i - 1));
        assert(events@.take(i as int).last() == events@[i - 1]);
        match &events[i - 1] {
            CustomerEvent::KycApproved { .. } => {
                return Some(true);
            },
            CustomerEvent::KycDeclined { .. } => {
                return Some(false);
            },
            _ => {},
        }
        i -= 1;
    }
    None
}

fn newest_email_is(events: &Vec<CustomerEvent>, email: &String) -> (b: bool)
    ensures
        b == (newest_email_update(events@) == Some(email@)),
{
    let mut i = events.len();
    assert(events@.take(i as int) =~= events@);
    while i > 0
        invariant
            i <= events.len(),
            newest_email_update(events@) == newest_email_update(events@.take(i as int)),
        decreases i,
    {
        assert(events@.take(i as int).drop_last() =~= events@.take(i - 1));
        assert(events@.take(i as int).last() == events@[i - 1]);
        if let CustomerEvent::EmailUpdated { email: existing, .. } = &events[i - 1] {
            return *existing == *email;
        }
        i -= 1;
    }
    false
}

fn scan_authentication_id(events: &Vec<CustomerEvent>, authentication_id: AuthenticationId) -> (b:
    bool)
    ensures
        b == has_authentication_id_update(events@, authentication_id),
{
    let mut i: usize = 0;
    while i < events.len()
        invariant
            i <= events.len(),
            forall|j: int|
                0 <= j < i ==> #[trigger] events@[j] != (CustomerEvent::AuthenticationIdUpdated {
                    authentication_id,
                }),
        decreases events.len() - i,
    {
        if let CustomerEvent::AuthenticationIdUpdated { authentication_id: existing } = &events[i] {
            if *existing == authentication_id {
                return true;
            }
        }
        i += 1;
    }
    false
}

fn scan_status_update(events: &Vec<CustomerEvent>, status: AccountStatus) -> (b: bool)
    ensures
        b == has_status_update(events@, status),
{
    let mut i: usize = 0;
    while i < events.len()
        invariant
            i <= events.len(),
            forall|j: int|
                0 <= j < i ==> !(#[trigger] events@[j] matches CustomerEvent::AccountStatusUpdated {
                    status: s,
                    ..
                } && s == status),
        decreases events.len() - i,
    {
        if let CustomerEvent::AccountStatusUpdated { status: existing, .. } = &events[i] {
            if *existing == status {
                return true;
            }
        }
        i += 1;
    }
    false
}

fn scan_telegram_id(events: &Vec<CustomerEvent>, telegram_id: &String) -> (b: bool)
    ensures
        b == has_telegram_id_update(events@, telegram_id@),
{
    let mut i: usize = 0;
    while i < events.len()
        invariant
            i <= events.len(),
            forall|j: int|
                0 <= j < i ==> !(#[trigger] events@[j] matches CustomerEvent::TelegramIdUpdated {
                    telegram_id: t,
                    ..
                } && t@ == telegram_id@),
        decreases events.len() - i,
    {
        if let CustomerEvent::TelegramIdUpdated { telegram_id: existing, .. } = &events[i] {
            if *existing == *telegram_id {
                return true;
            }
        }
        i += 1;
    }
    false
}

fn scan_activity(events: &Vec<CustomerEvent>, activity_type: ActivityType) -> (b: bool)
    ensures
        b == has_activity(events@, activity_type),
{
    let mut i: usize = 0;
    while i < events.len()
        invariant
            i <= events.len(),
            forall|j: int|
                0 <= j < i ==> !(#[trigger] events@[j] matches CustomerEvent::ActivityRecorded {
                    activity_type: a,
                    ..
                } && a == activity_type),
        decreases events.len() - i,
    {
        if let CustomerEvent::ActivityRecorded { activity_type: existing, .. } = &events[i] {
            if *existing == activity_type {
                return true;
            }
        }
        i += 1;
    }
    false
}

impl Customer {
    pub fn may_create_loan(&self) -> (b: bool)
        ensures
            b,
    {
        true
    }

    /// Records the authentication id, unless this id was ever recorded.
    pub fn update_authentication_id(&mut self, authentication_id: AuthenticationId) -> (r:
        Idempotent<()>)
        ensures
            r is Ignored <==> has_authentication_id_update(old(self).events@, authentication_id),
            r is Ignored ==> *final(self) == *old(self),
            r is Executed ==> final(self).events@ == old(self).events@.push(
                CustomerEvent::AuthenticationIdUpdated { authentication_id },
            ) && same_profile(
                *final(self),
                Customer { authentication_id: Some(authentication_id), ..*old(self) },
            ),
            old(self).is_consistent() ==> final(self).is_consistent(),
    {
        if scan_authentication_id(&self.events, authentication_id) {
            return Idempotent::Ignored;
        }
        proof {
            lemma_replay_push(
                self.events@,
                CustomerEvent::AuthenticationIdUpdated { authentication_id },
            );
        }
        self.authentication_id = Some(authentication_id);
        self.events.push(CustomerEvent::AuthenticationIdUpdated { authentication_id });
        Idempotent::Executed(())
    }

    /// Records that KYC started for the applicant.
    pub fn start_kyc(&mut self, applicant_id: String, audit_info: AuditInfo)
        ensures
            final(self).events@ == old(self).events@.push(
                CustomerEvent::KycStarted { applicant_id, audit_info },
            ),
            same_profile(*final(self), Customer { applicant_id: Some(applicant_id), ..*old(self) }),
            old(self).is_consistent() ==> final(self).is_consistent(),
    {
        proof {
            lemma_replay_push(self.events@, CustomerEvent::KycStarted { applicant_id, audit_info });
        }
        self.events.push(CustomerEvent::KycStarted { applicant_id: applicant_id.clone(), audit_info });
        self.applicant_id = Some(applicant_id);
    }

    /// Sets the account status, unless a status update to this status was
    /// ever recorded.
    fn update_account_status(&mut self, status: AccountStatus, audit_info: AuditInfo) -> (r:
        Idempotent<()>)
        ensures
            r is Ignored <==> has_status_update(old(self).events@, status),
            r is Ignored ==> *final(self) == *old(self),
            r is Executed ==> final(self).events@ == old(self).events@.push(
                CustomerEvent::AccountStatusUpdated { status, audit_info },
            ) && same_profile(*final(self), Customer { status, ..*old(self) }),
            old(self).is_consistent() ==> final(self).is_consistent(),
    {
        if scan_status_update(&self.events, status) {
            return Idempotent::Ignored;
        }
        proof {
            lemma_replay_push(self.events@, CustomerEvent::AccountStatusUpdated { status, audit_info });
        }
        self.events.push(CustomerEvent::AccountStatusUpdated { status, audit_info });
        self.status = status;
        Idempotent::Executed(())
    }

    /// Approves KYC, unless the newest KYC decision already is an approval.
    /// An approval records the decision, sets the level to `Basic` and then
    /// sets the status to `Active`; the outcome is that of the status update,
    /// which is ignored when an update to `Active` was ever recorded.
    pub fn approve_kyc(&mut self, level: KycLevel, applicant_id: String, audit_info: AuditInfo) -> (r:
        Idempotent<()>)
        ensures
            newest_kyc_decision(old(self).events@) == Some(true) ==> r is Ignored && *final(self)
                == *old(self),
            newest_kyc_decision(old(self).events@) != Some(true) ==> {
                let approved = old(self).events@.push(
                    CustomerEvent::KycApproved { applicant_id, level, audit_info },
                );
                &&& (r is Executed <==> !has_status_update(old(self).events@, AccountStatus::Active))
                &&& final(self).events@ == if r is Executed {
                    approved.push(
                        CustomerEvent::AccountStatusUpdated {
                            status: AccountStatus::Active,
                            audit_info,
                        },
                    )
                } else {
                    approved
                }
                &&& same_profile(
                    *final(self),
                    Customer {
                        applicant_id: Some(applicant_id),
                        level: KycLevel::Basic,
                        status: if r is Executed {
                            AccountStatus::Active
                        } else {
                            old(self).status
                        },
                        ..*old(self)
                    },
                )
            },
            old(self).is_consistent() && level == KycLevel::Basic ==> final(self).is_consistent(),
    {
        if scan_kyc_decision(&self.events) == Some(true) {
            return Idempotent::Ignored;
        }
        let ghost old_events = self.events@;
        proof {
            lemma_replay_push(
                self.events@,
                CustomerEvent::KycApproved { applicant_id, level, audit_info },
            );
        }
        self.events.push(
            CustomerEvent::KycApproved {
                level,
                applicant_id: applicant_id.clone(),
                audit_info: audit_info.clone(),
            },
        );
        proof {
            assert forall|s: AccountStatus|
                has_status_update(self.events@, s) == has_status_update(old_events, s) by {
                if has_status_update(self.events@, s) {
                    let i = choose|i: int|
                        0 <= i < self.events@.len() && (
                        #[trigger] self.events@[i] matches CustomerEvent::AccountStatusUpdated {
                            status: x,
                            ..
                        } && x == s);
                    assert(i < old_events.len());
                    assert(old_events[i] == self.events@[i]);
                }
                if has_status_update(old_events, s) {
                    let i = choose|i: int|
                        0 <= i < old_events.len() && (
                        #[trigger] old_events[i] matches CustomerEvent::AccountStatusUpdated {
                            status: x,
                            ..
                        } && x == s);
                    assert(old_events[i] == self.events@[i]);
                }
            }
        }
        self.applicant_id = Some(applicant_id);
        self.level = KycLevel::Basic;
        self.update_account_status(AccountStatus::Active, audit_info)
    }

    /// Declines KYC, unless the newest KYC decision already is a decline.
    /// A decline records the decision, sets the level to `NotKyced` and then
    /// sets the status to `Inactive`; the outcome is that of the status
    /// update, which is ignored when an update to `Inactive` was ever
    /// recorded.
    pub fn decline_kyc(&mut self, applicant_id: String, audit_info: AuditInfo) -> (r: Idempotent<()>)
        ensures
            newest_kyc_decision(old(self).events@) == Some(false) ==> r is Ignored && *final(self)
                == *old(self),
            newest_kyc_decision(old(self).events@) != Some(false) ==> {
                let declined = old(self).events@.push(
                    CustomerEvent::KycDeclined { applicant_id, audit_info },
                );
                &&& (r is Executed <==> !has_status_update(
                    old(self).events@,
                    AccountStatus::Inactive,
                ))
                &&& final(self).events@ == if r is Executed {
                    declined.push(
                        CustomerEvent::AccountStatusUpdated {
                            status: AccountStatus::Inactive,
                            audit_info,
                        },
                    )
                } else {
                    declined
                }
                &&& same_profile(
                    *final(self),
                    Customer {
                        level: KycLevel::NotKyced,
                        status: if r is Executed {
                            AccountStatus::Inactive
                        } else {
                            old(self).status
                        },
                        ..*old(self)
                    },
                )
            },
            old(self).is_consistent() && old(self).level == KycLevel::NotKyced && opt_view(
                old(self).applicant_id,
            ) == Some(applicant_id@) ==> final(self).is_consistent(),
    {
        if scan_kyc_decision(&self.events) == Some(false) {
            return Idempotent::Ignored;
        }
        let ghost old_events = self.events@;
        proof {
            lemma_replay_push(self.events@, CustomerEvent::KycDeclined { applicant_id, audit_info });
        }
        self.events.push(CustomerEvent::KycDeclined { applicant_id, audit_info: audit_info.clone() });
        proof {
            assert forall|s: AccountStatus|
                has_status_update(self.events@, s) == has_status_update(old_events, s) by {
                if has_status_update(self.events@, s) {
                    let i = choose|i: int|
                        0 <= i < self.events@.len() && (
                        #[trigger] self.events@[i] matches CustomerEvent::AccountStatusUpdated {
                            status: x,
                            ..
                        } && x == s);
                    assert(i < old_events.len());
                    assert(old_events[i] == self.events@[i]);
                }
                if has_status_update(old_events, s) {
                    let i = choose|i: int|
                        0 <= i < old_events.len() && (
                        #[trigger] old_events[i] matches CustomerEvent::AccountStatusUpdated {
                            status: x,
                            ..
                        } && x == s);
                    assert(old_events[i] == self.events@[i]);
                }
            }
        }
        self.level = KycLevel::NotKyced;
        self.update_account_status(AccountStatus::Inactive, audit_info)
    }

    /// Records a new telegram id, unless this id was ever recorded by an
    /// update.
    pub fn update_telegram_id(&mut self, new_telegram_id: String, audit_info: AuditInfo) -> (r:
        Idempotent<()>)
        ensures
            r is Ignored <==> has_telegram_id_update(old(self).events@, new_telegram_id@),
            r is Ignored ==> *final(self) == *old(self),
            r is Executed ==> final(self).events@ == old(self).events@.push(
                CustomerEvent::TelegramIdUpdated { telegram_id: new_telegram_id, audit_info },
            ) && same_profile(*final(self), Customer { telegram_id: new_telegram_id, ..*old(self) }),
            old(self).is_consistent() ==> final(self).is_consistent(),
    {
        if scan_telegram_id(&self.events, &new_telegram_id) {
            return Idempotent::Ignored;
        }
        proof {
            lemma_replay_push(
                self.events@,
                CustomerEvent::TelegramIdUpdated { telegram_id: new_telegram_id, audit_info },
            );
        }
        self.events.push(
            CustomerEvent::TelegramIdUpdated { telegram_id: new_telegram_id.clone(), audit_info },
        );
        self.telegram_id = new_telegram_id;
        Idempotent::Executed(())
    }

    /// Records a new email, unless the newest email update already set it.
    pub fn update_email(&mut self, new_email: String, audit_info: AuditInfo) -> (r: Idempotent<()>)
        ensures
            r is Ignored <==> newest_email_update(old(self).events@) == Some(new_email@),
            r is Ignored ==> *final(self) == *old(self),
            r is Executed ==> final(self).events@ == old(self).events@.push(
                CustomerEvent::EmailUpdated { email: new_email, audit_info },
            ) && same_profile(*final(self), Customer { email: new_email, ..*old(self) }),
            old(self).is_consistent() ==> final(self).is_consistent(),
    {
        if newest_email_is(&self.events, &new_email) {
            return Idempotent::Ignored;
        }
        proof {
            lemma_replay_push(self.events@, CustomerEvent::EmailUpdated { email: new_email, audit_info });
        }
        self.events.push(CustomerEvent::EmailUpdated { email: new_email.clone(), audit_info });
        self.email = new_email;
        Idempotent::Executed(())
    }

    /// The inactivity threshold of the default configuration.
    pub fn inactivity_threshold(&self) -> (d: Duration)
        ensures
            d.micros == 365 * MICROS_PER_DAY,
    {
        let config = CustomerConfig::default();
        Duration::days(config.inactivity_threshold_days as i64)
    }

    /// Records activity of a type at instant `now`, unless activity of this
    /// type was ever recorded.
    pub fn record_activity_at(
        &mut self,
        activity_type: ActivityType,
        audit_info: AuditInfo,
        now: Timestamp,
    ) -> (r: Idempotent<()>)
        ensures
            r is Ignored <==> has_activity(old(self).events@, activity_type),
            r is Ignored ==> *final(self) == *old(self),
            r is Executed ==> final(self).events@ == old(self).events@.push(
                CustomerEvent::ActivityRecorded { activity_type, audit_info },
            ) && same_profile(*final(self), Customer { last_activity: Some(now), ..*old(self) }),
            old(self).is_consistent() ==> final(self).is_consistent(),
    {
        if scan_activity(&self.events, activity_type) {
            return Idempotent::Ignored;
        }
        proof {
            lemma_replay_push(self.events@, CustomerEvent::ActivityRecorded { activity_type, audit_info });
        }
        self.last_activity = Some(now);
        self.events.push(CustomerEvent::ActivityRecorded { activity_type, audit_info });
        Idempotent::Executed(())
    }

    /// Records activity of a type now (by the clock), unless activity of
    /// this type was ever recorded.
    pub fn record_activity(&mut self, activity_type: ActivityType, audit_info: AuditInfo) -> (r:
        Idempotent<()>)
        ensures
            r is Ignored <==> has_activity(old(self).events@, activity_type),
            r is Ignored ==> *final(self) == *old(self),
            r is Executed ==> final(self).events@ == old(self).events@.push(
                CustomerEvent::ActivityRecorded { activity_type, audit_info },
            ) && final(self).last_activity is Some && same_profile(
                *final(self),
                Customer { last_activity: final(self).last_activity, ..*old(self) },
            ),
            old(self).is_consistent() ==> final(self).is_consistent(),
    {
        let t = now();
        self.record_activity_at(activity_type, audit_info, t)
    }

    /// The account status at instant `now` given the inactivity threshold.
    pub fn get_account_status_at(&self, now: Timestamp, inactivity_threshold: Duration) -> (s:
        AccountStatus)
        ensures
            s == status_at(self.last_activity, now, inactivity_threshold),
    {
        match self.last_activity {
            Some(last_activity) => {
                let time_since_activity: i128 = (now as i128) - (last_activity as i128);
                if time_since_activity >= inactivity_threshold.micros as i128 {
                    AccountStatus::Inactive
                } else {
                    AccountStatus::Active
                }
            },
            None => AccountStatus::Inactive,
        }
    }

    /// The account status now (by the clock) given the inactivity threshold.
    pub fn get_account_status(&self, inactivity_threshold: Duration) -> (s: AccountStatus)
        ensures
            self.last_activity is None ==> s == AccountStatus::Inactive,
            exists|t: Timestamp| s == status_at(self.last_activity, t, inactivity_threshold),
    {
        let t = now();
        self.get_account_status_at(t, inactivity_threshold)
    }

    /// The effective status at instant `now`: `Inactive` when the recorded
    /// status is, else the activity-based status under the default
    /// threshold.
    pub fn get_effective_account_status_at(&self, now: Timestamp) -> (s: AccountStatus)
        ensures
            s == if self.status == AccountStatus::Inactive {
                AccountStatus::Inactive
            } else {
                status_at(self.last_activity, now, Duration { micros: 31_536_000_000_000i64 })
            },
    {
        if self.status == AccountStatus::Inactive {
            return AccountStatus::Inactive;
        }
        self.get_account_status_at(now, self.inactivity_threshold())
    }

    /// The effective status now (by the clock).
    pub fn get_effective_account_status(&self) -> (s: AccountStatus)
        ensures
            self.status == AccountStatus::Inactive ==> s == AccountStatus::Inactive,
            self.last_activity is None ==> s == AccountStatus::Inactive,
            exists|t: Timestamp|
                s == if self.status == AccountStatus::Inactive {
                    AccountStatus::Inactive
                } else {
                    status_at(self.last_activity, t, Duration { micros: 31_536_000_000_000i64 })
                },
    {
        let t = now();
        self.get_effective_account_status_at(t)
    }
}

/// The request that creates a customer.
pub struct NewCustomer {
    pub id: CustomerId,
    pub email: String,
    pub telegram_id: String,
    pub customer_type: CustomerType,
    pub status: AccountStatus,
    pub public_id: PublicId,
    pub audit_info: AuditInfo,
    pub last_activity: Option<Timestamp>,
}

pub type NewCustomerBuilderError = BuilderError;

/// Collects the fields of a `NewCustomer`. The status always starts
/// `Inactive` and the last activity defaults to none; the other fields must
/// be set.
pub struct NewCustomerBuilder {
    pub id: Option<CustomerId>,
    pub email: Option<String>,
    pub telegram_id: Option<String>,
    pub customer_type: Option<CustomerType>,
    pub public_id: Option<PublicId>,
    pub audit_info: Option<AuditInfo>,
    pub last_activity: Option<Option<Timestamp>>,
}

impl NewCustomer {
    pub fn builder() -> (b: NewCustomerBuilder)
        ensures
            b.id is None && b.email is None && b.telegram_id is None && b.customer_type is None
                && b.public_id is None && b.audit_info is None && b.last_activity is None,
    {
        NewCustomerBuilder {
            id: None,
            email: None,
            telegram_id: None,
            customer_type: None,
            public_id: None,
            audit_info: None,
            last_activity: None,
        }
    }

    /// The single `Initialized` event of a new customer.
    pub fn into_events(self) -> (events: Vec<CustomerEvent>)
        ensures
            events@ == seq![
                CustomerEvent::Initialized {
                    id: self.id,
                    email: self.email,
                    telegram_id: self.telegram_id,
                    customer_type: self.customer_type,
                    public_id: self.public_id,
                    audit_info: self.audit_info,
                },
            ],
    {
        let mut v = Vec::new();
        v.push(
            CustomerEvent::Initialized {
                id: self.id,
                email: self.email,
                telegram_id: self.telegram_id,
                customer_type: self.customer_type,
                public_id: self.public_id,
                audit_info: self.audit_info,
            },
        );
        v
    }
}

impl NewCustomerBuilder {
    pub fn id(self, id: CustomerId) -> (b: Self)
        ensures
            b == (NewCustomerBuilder { id: Some(id), ..self }),
    {
        NewCustomerBuilder { id: Some(id), ..self }
    }

    pub fn email(self, email: String) -> (b: Self)
        ensures
            b == (NewCustomerBuilder { email: Some(email), ..self }),
    {
        NewCustomerBuilder { email: Some(email), ..self }
    }

    pub fn telegram_id(self, telegram_id: String) -> (b: Self)
        ensures
            b == (NewCustomerBuilder { telegram_id: Some(telegram_id), ..self }),
    {
        NewCustomerBuilder { telegram_id: Some(telegram_id), ..self }
    }

    pub fn customer_type(self, customer_type: CustomerType) -> (b: Self)
        ensures
            b == (NewCustomerBuilder { customer_type: Some(customer_type), ..self }),
    {
        NewCustomerBuilder { customer_type: Some(customer_type), ..self }
    }

    pub fn public_id(self, public_id: PublicId) -> (b: Self)
        ensures
            b == (NewCustomerBuilder { public_id: Some(public_id), ..self }),
    {
        NewCustomerBuilder { public_id: Some(public_id), ..self }
    }

    pub fn audit_info(self, audit_info: AuditInfo) -> (b: Self)
        ensures
            b == (NewCustomerBuilder { audit_info: Some(audit_info), ..self }),
    {
        NewCustomerBuilder { audit_info: Some(audit_info), ..self }
    }

    pub fn last_activity(self, last_activity: Option<Timestamp>) -> (b: Self)
        ensures
            b == (NewCustomerBuilder { last_activity: Some(last_activity), ..self }),
    {
        NewCustomerBuilder { last_activity: Some(last_activity), ..self }
    }

    /// Builds the request; fails exactly when a field without default is
    /// unset.
    pub fn build(self) -> (r: Result<NewCustomer, NewCustomerBuilderError>)
        ensures
            r is Ok <==> (self.id is Some && self.email is Some && self.telegram_id is Some
                && self.customer_type is Some && self.public_id is Some && self.audit_info is Some),
            r matches Err(e) ==> e is UninitializedField,
            r matches Ok(n) ==> n == (NewCustomer {
                id: self.id->0,
                email: self.email->0,
                telegram_id: self.telegram_id->0,
                customer_type: self.customer_type->0,
                status: AccountStatus::Inactive,
                public_id: self.public_id->0,
                audit_info: self.audit_info->0,
                last_activity: match self.last_activity {
                    Some(l) => l,
                    None => None,
                },
            }),
    {
        let last_activity = match self.last_activity {
            Some(l) => l,
            None => None,
        };
        match (self.id, self.email, self.telegram_id, self.customer_type, self.public_id, self.audit_info) {
            (Some(id), Some(email), Some(telegram_id), Some(customer_type), Some(public_id), Some(audit_info)) => Ok(
                NewCustomer {
                    id,
                    email,
                    telegram_id,
                    customer_type,
                    status: AccountStatus::Inactive,
                    public_id,
                    audit_info,
                    last_activity,
                },
            ),
            _ => Err(BuilderError::UninitializedField("customer field")),
        }
    }
}

// ---------------------------------------------------------------------------
// Laws
// ---------------------------------------------------------------------------

/// Each idempotent customer command, once executed, is ignored when repeated
/// with the same argument: authentication id, telegram id, email and
/// activity updates.
pub proof fn customer_updates_are_idempotent(
    events: Seq<CustomerEvent>,
    authentication_id: AuthenticationId,
    telegram_id: String,
    email: String,
    activity_type: ActivityType,
    audit_info: AuditInfo,
)
    ensures
        has_authentication_id_update(
            events.push(CustomerEvent::AuthenticationIdUpdated { authentication_id }),
            authentication_id,
        ),
        has_telegram_id_update(
            events.push(CustomerEvent::TelegramIdUpdated { telegram_id, audit_info }),
            telegram_id@,
        ),
        newest_email_update(events.push(CustomerEvent::EmailUpdated { email, audit_info }))
            == Some(email@),
        has_activity(
            events.push(CustomerEvent::ActivityRecorded { activity_type, audit_info }),
            activity_type,
        ),
{
    let n = events.len() as int;
    assert(events.push(CustomerEvent::AuthenticationIdUpdated { authentication_id })[n]
        == CustomerEvent::AuthenticationIdUpdated { authentication_id });
    assert(events.push(CustomerEvent::TelegramIdUpdated { telegram_id, audit_info })[n]
        == CustomerEvent::TelegramIdUpdated { telegram_id, audit_info });
    assert(events.push(CustomerEvent::ActivityRecorded { activity_type, audit_info })[n]
        == CustomerEvent::ActivityRecorded { activity_type, audit_info });
}

/// After a KYC approval is recorded, approving again is ignored; after a
/// decline is recorded, declining again is ignored.
pub proof fn kyc_decisions_are_idempotent(
    events: Seq<CustomerEvent>,
    applicant_id: String,
    level: KycLevel,
    audit_info: AuditInfo,
)
    ensures
        newest_kyc_decision(
            events.push(CustomerEvent::KycApproved { applicant_id, level, audit_info }),
        ) == Some(true),
        newest_kyc_decision(
            events.push(CustomerEvent::KycApproved { applicant_id, level, audit_info }).push(
                CustomerEvent::AccountStatusUpdated { status: AccountStatus::Active, audit_info },
            ),
        ) == Some(true),
        newest_kyc_decision(events.push(CustomerEvent::KycDeclined { applicant_id, audit_info }))
            == Some(false),
        newest_kyc_decision(
            events.push(CustomerEvent::KycDeclined { applicant_id, audit_info }).push(
                CustomerEvent::AccountStatusUpdated { status: AccountStatus::Inactive, audit_info },
            ),
        ) == Some(false),
{
    let a = events.push(CustomerEvent::KycApproved { applicant_id, level, audit_info });
    let a2 = a.push(
        CustomerEvent::AccountStatusUpdated { status: AccountStatus::Active, audit_info },
    );
    assert(a2.drop_last() =~= a);
    let d = events.push(CustomerEvent::KycDeclined { applicant_id, audit_info });
    let d2 = d.push(
        CustomerEvent::AccountStatusUpdated { status: AccountStatus::Inactive, audit_info },
    );
    assert(d2.drop_last() =~= d);
}

/// A customer with no recorded activity is inactive at every instant; one
/// whose last activity lies within the threshold before `now` is active.
pub proof fn account_status_by_activity(
    last_activity: Option<Timestamp>,
    now: Timestamp,
    threshold: Duration,
)
    ensures
        last_activity is None ==> status_at(last_activity, now, threshold)
            == AccountStatus::Inactive,
        last_activity matches Some(t) && now - t < threshold.micros ==> status_at(
            last_activity,
            now,
            threshold,
        ) == AccountStatus::Active,
{
}
/// A customer rebuilt from the events of a new request (what `into_events`
/// gives) exists, and has the request's id, email, telegram id, type and
/// public id; it is not KYC'd, has no authentication or applicant id, and is
/// inactive.
pub proof fn new_customer_round_trip(request: NewCustomer, customer: Customer)
    ensures
        ({
            let events = seq![
                CustomerEvent::Initialized {
                    id: request.id,
                    email: request.email,
                    telegram_id: request.telegram_id,
                    customer_type: request.customer_type,
                    public_id: request.public_id,
                    audit_info: request.audit_info,
                },
            ];
            &&& replay(events).id is Some
            &&& customer.is_replay_of(events) ==> {
                &&& customer.id == request.id
                &&& customer.email@ == request.email@
                &&& customer.telegram_id@ == request.telegram_id@
                &&& customer.customer_type == request.customer_type
                &&& customer.public_id@ == request.public_id@
                &&& customer.level == KycLevel::NotKyced
                &&& customer.authentication_id is None
                &&& customer.applicant_id is None
                &&& customer.status == AccountStatus::Inactive
            }
        }),
{
    let events = seq![
        CustomerEvent::Initialized {
            id: request.id,
            email: request.email,
            telegram_id: request.telegram_id,
            customer_type: request.customer_type,
            public_id: request.public_id,
            audit_info: request.audit_info,
        },
    ];
    assert(events.drop_last() =~= Seq::<CustomerEvent>::empty());
    assert(replay(events.drop_last()) == empty_replay());
    let r = replay(events);
    assert(r == replay_step(empty_replay(), events.last()));
    assert(r.applicant_id is None);
    assert(r.status is None);
    if customer.is_replay_of(events) {
        match customer.applicant_id {
            Some(a) => {
                assert(opt_view(customer.applicant_id) == Some(a@));
            },
            None => {},
        }
    }
}

} // verus!
