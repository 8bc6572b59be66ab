//! Identifiers, money amounts, time values, audit information and the
//! outcome of idempotent operations, shared by every entity of the library.

use vstd::prelude::*;

verus! {

// ---------------------------------------------------------------------------
// Outside calls: random identifiers and the wall clock
// ---------------------------------------------------------------------------

/// Calls `uuid::Uuid::new_v4` and hands out the 128 bits of the fresh
/// identifier. The value is random, so nothing is promised of it.
#[verifier::external_body]
fn random_uuid_bits() -> (bits: u128) {
    uuid::Uuid::new_v4().as_u128()
}

/// The lower-case hexadecimal digit for `n`, which is below sixteen.
pub open spec fn hex_digit(n: int) -> char {
    if n < 10 {
        (n + 48) as char
    } else {
        (n + 87) as char
    }
}

/// Which of the 32 hexadecimal digits stands at position `i` of the
/// hyphenated text (hyphens at positions 8, 13, 18 and 23).
pub open spec fn uuid_digit_index(i: int) -> int {
    if i < 8 {
        i
    } else if i < 13 {
        i - 1
    } else if i < 18 {
        i - 2
    } else if i < 23 {
        i - 3
    } else {
        i - 4
    }
}

/// The `k`-th hexadecimal digit of the 128 bits, the most significant first.
pub open spec fn uuid_nibble(bits: u128, k: int) -> int {
    ((bits as int) / vstd::arithmetic::power::pow(16, (31 - k) as nat)) % 16
}

/// The hyphenated lower-case text of an identifier: its 128 bits as 32
/// hexadecimal digits, the most significant first, in groups of 8, 4, 4, 4
/// and 12 joined by hyphens.
pub open spec fn uuid_text(bits: u128) -> Seq<char> {
    Seq::new(
        36,
        |i: int|
            if i == 8 || i == 13 || i == 18 || i == 23 {
                '-'
            } else {
                hex_digit(uuid_nibble(bits, uuid_digit_index(i)))
            },
    )
}

/// Calls `uuid::Uuid::to_string` on the identifier with the given bits,
/// which writes the hyphenated lower-case text of the big-endian bytes.
#[verifier::external_body]
fn uuid_to_string(bits: u128) -> (text: String)
    ensures
        text@ == uuid_text(bits),
{
    uuid::Uuid::from_u128(bits).to_string()
}

/// Calls `chrono::Utc::now` and returns the instant as microseconds since the
/// Unix epoch. The result depends on the clock, so nothing is promised of it.
#[verifier::external_body]
pub fn now() -> (t: Timestamp) {
    chrono::Utc::now().timestamp_micros()
}

/// Calls `String::push`, which appends the character.
#[verifier::external_body]
pub(crate) fn push_char(s: &mut String, c: char)
    ensures
        final(s)@ == old(s)@.push(c),
{
    s.push(c)
}

/// An instant, in microseconds since the Unix epoch (UTC).
pub type Timestamp = i64;

pub const MICROS_PER_SECOND: i64 = 1_000_000i64;

pub const MICROS_PER_DAY: i64 = 86_400_000_000i64;

/// A signed span of time in microseconds.
#[derive(Clone, Copy, Debug, PartialEq, Eq, Structural)]
pub struct Duration {
    pub micros: i64,
}

impl Duration {
    /// A span of whole days.
    pub fn days(days: i64) -> (d: Duration)
        requires
            i64::MIN <= days * MICROS_PER_DAY <= i64::MAX,
        ensures
            d.micros == days * MICROS_PER_DAY,
    {
        Duration { micros: days * MICROS_PER_DAY }
    }

    /// A span of whole seconds.
    pub fn seconds(seconds: i64) -> (d: Duration)
        requires
            i64::MIN <= seconds * MICROS_PER_SECOND <= i64::MAX,
        ensures
            d.micros == seconds * MICROS_PER_SECOND,
    {
        Duration { micros: seconds * MICROS_PER_SECOND }
    }
}

// ---------------------------------------------------------------------------
// Identifiers
// ---------------------------------------------------------------------------

/// A 128-bit entity identifier (a UUID).
#[derive(Clone, Copy, Debug, PartialEq, Eq, Structural)]
pub struct EntityId {
    pub bits: u128,
}

impl EntityId {
    /// A fresh random identifier.
    pub fn new() -> (id: EntityId) {
        EntityId { bits: random_uuid_bits() }
    }

    /// The identifier with exactly the given bits.
    pub fn from_bits(bits: u128) -> (id: EntityId)
        ensures
            id.bits == bits,
    {
        EntityId { bits }
    }

    /// The hyphenated text of the identifier.
    pub fn to_string(&self) -> (text: String)
        ensures
            text@ == uuid_text(self.bits),
    {
        uuid_to_string(self.bits)
    }
}

/// `prefix`, the hyphenated text of `id`, then `suffix`.
pub fn tagged_id(prefix: &str, id: EntityId, suffix: &str) -> (s: String)
    ensures
        s@ == prefix@ + uuid_text(id.bits) + suffix@,
{
    let mut s = String::new();
    s.append(prefix);
    let text = id.to_string();
    s.append(text.as_str());
    s.append(suffix);
    s
}

/// Whether two texts hold the same characters.
pub fn str_eq(a: &str, b: &str) -> (r: bool)
    ensures
        r == (a@ == b@),
{
    let n = a.unicode_len();
    if n != b.unicode_len() {
        return false;
    }
    let mut i: usize = 0;
    while i < n
        invariant
            n == a@.len() == b@.len(),
            i <= n,
            forall|j: int| 0 <= j < i ==> a@[j] == b@[j],
        decreases n - i,
    {
        if a.get_char(i) != b.get_char(i) {
            return false;
        }
        i += 1;
    }
    assert(a@ =~= b@);
    true
}

/// Whether `s` begins with `prefix`.
pub fn str_starts_with(s: &str, prefix: &str) -> (r: bool)
    ensures
        r == (prefix@.len() <= s@.len() && s@.take(prefix@.len() as int) == prefix@),
{
    let n = prefix.unicode_len();
    if n > s.unicode_len() {
        return false;
    }
    let mut i: usize = 0;
    while i < n
        invariant
            n == prefix@.len(),
            n <= s@.len(),
            i <= n,
            forall|j: int| 0 <= j < i ==> s@[j] == prefix@[j],
        decreases n - i,
    {
        if s.get_char(i) != prefix.get_char(i) {
            assert(s@.take(n as int)[i as int] != prefix@[i as int]);
            return false;
        }
        i += 1;
    }
    assert(s@.take(n as int) =~= prefix@);
    true
}

pub type CustomerId = EntityId;

pub type AuthenticationId = EntityId;

pub type DepositAccountId = EntityId;

pub type DepositAccountHolderId = EntityId;

pub type DepositId = EntityId;

pub type WithdrawalId = EntityId;

pub type CalaAccountId = EntityId;

pub type CalaTransactionId = EntityId;

pub type ApprovalProcessId = EntityId;

pub type DocumentId = EntityId;

pub type ReferenceId = EntityId;

pub type WalletId = EntityId;

pub type CustodianId = EntityId;

pub type ReportId = EntityId;

pub type ReportRunId = EntityId;

pub type PublicIdTargetId = EntityId;

pub type UserId = EntityId;

pub type RoleId = EntityId;

pub type PermissionSetId = EntityId;

pub type CreditFacilityProposalId = EntityId;

pub type CreditFacilityId = EntityId;

pub type CollateralId = EntityId;

pub type LedgerTxId = EntityId;

pub type ObligationId = EntityId;

// ---------------------------------------------------------------------------
// Audit information
// ---------------------------------------------------------------------------

/// The identifier of an audit log entry.
#[derive(Clone, Copy, Debug, PartialEq, Eq, Structural)]
pub struct AuditEntryId {
    pub value: i64,
}

impl AuditEntryId {
    pub fn new(value: i64) -> (id: AuditEntryId)
        ensures
            id.value == value,
    {
        AuditEntryId { value }
    }
}

/// Who did something and under which audit entry it was recorded.
#[derive(Debug)]
pub struct AuditInfo {
    pub audit_entry_id: AuditEntryId,
    pub sub: String,
}

impl Clone for AuditInfo {
    fn clone(&self) -> (r: AuditInfo)
        ensures
            r == *self,
    {
        AuditInfo { audit_entry_id: self.audit_entry_id, sub: self.sub.clone() }
    }
}

// ---------------------------------------------------------------------------
// Money
// ---------------------------------------------------------------------------

/// An amount of US cents.
#[derive(Clone, Copy, Debug, PartialEq, Eq, Structural)]
pub struct UsdCents {
    pub cents: u64,
}

impl UsdCents {
    pub fn zero() -> (r: UsdCents)
        ensures
            r.cents == 0,
    {
        UsdCents { cents: 0 }
    }

    pub fn one() -> (r: UsdCents)
        ensures
            r.cents == 1,
    {
        UsdCents { cents: 1 }
    }

    pub fn is_zero(&self) -> (b: bool)
        ensures
            b == (self.cents == 0),
    {
        self.cents == 0
    }

    pub fn into_inner(&self) -> (c: u64)
        ensures
            c == self.cents,
    {
        self.cents
    }
}

impl From<u64> for UsdCents {
    fn from(cents: u64) -> (r: UsdCents) {
        UsdCents { cents }
    }
}

impl vstd::std_specs::convert::FromSpecImpl<u64> for UsdCents {
    open spec fn obeys_from_spec() -> bool {
        true
    }

    open spec fn from_spec(cents: u64) -> UsdCents {
        UsdCents { cents }
    }
}

/// An amount of satoshis.
#[derive(Clone, Copy, Debug, PartialEq, Eq, Structural)]
pub struct Satoshis {
    pub sats: u64,
}

impl Satoshis {
    pub fn zero() -> (r: Satoshis)
        ensures
            r.sats == 0,
    {
        Satoshis { sats: 0 }
    }

    pub fn is_zero(&self) -> (b: bool)
        ensures
            b == (self.sats == 0),
    {
        self.sats == 0
    }
}

impl From<u64> for Satoshis {
    fn from(sats: u64) -> (r: Satoshis) {
        Satoshis { sats }
    }
}

impl vstd::std_specs::convert::FromSpecImpl<u64> for Satoshis {
    open spec fn obeys_from_spec() -> bool {
        true
    }

    open spec fn from_spec(sats: u64) -> Satoshis {
        Satoshis { sats }
    }
}

// ---------------------------------------------------------------------------
// Outcome of idempotent commands
// ---------------------------------------------------------------------------

/// The outcome of a command that does nothing when its effect is already
/// recorded in the entity's events.
#[derive(Debug)]
pub enum Idempotent<T> {
    /// The command ran and recorded its effect; carries its result.
    Executed(T),
    /// The command's effect was already recorded; nothing changed.
    Ignored,
}

impl<T> Idempotent<T> {
    pub fn did_execute(&self) -> (b: bool)
        ensures
            b == (self is Executed),
    {
        match self {
            Idempotent::Executed(_) => true,
            Idempotent::Ignored => false,
        }
    }

    pub fn was_ignored(&self) -> (b: bool)
        ensures
            b == (self is Ignored),
    {
        match self {
            Idempotent::Executed(_) => false,
            Idempotent::Ignored => true,
        }
    }

    /// The result of an executed command.
    pub fn unwrap(self) -> (t: T)
        requires
            self is Executed,
        ensures
            t == self->Executed_0,
    {
        match self {
            Idempotent::Executed(t) => t,
            Idempotent::Ignored => unreached(),
        }
    }

    pub fn into_executed(self) -> (o: Option<T>)
        ensures
            self is Executed <==> o is Some,
            self is Executed ==> o == Some(self->Executed_0),
    {
        match self {
            Idempotent::Executed(t) => Some(t),
            Idempotent::Ignored => None,
        }
    }
}

/// Why a builder could not build its value.
#[derive(Debug)]
pub enum BuilderError {
    /// A field without a default was never set.
    UninitializedField(&'static str),
    /// The fields were set but break a rule of the value.
    ValidationError(String),
}

/// Why an entity could not be rebuilt from its events.
#[derive(Clone, Copy, Debug, PartialEq, Eq, Structural)]
pub enum EntityError {
    /// No event initialised a field that the entity needs.
    UninitializedField,
}

} // verus!
