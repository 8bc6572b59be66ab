//! Public identifiers: short human-facing references handed out in sequence
//! and pointing at an entity of some target type.

use vstd::prelude::*;

use crate::primitives::{push_char, str_eq, BuilderError, EntityError, PublicIdTargetId};

verus! {

/// A public reference, such as `"42"`.
#[derive(Debug, Hash)]
pub struct PublicId {
    id: String,
}

impl View for PublicId {
    type V = Seq<char>;

    closed spec fn view(&self) -> Seq<char> {
        self.id@
    }
}

impl PublicId {
    pub fn new(id: String) -> (p: PublicId)
        ensures
            p@ == id@,
    {
        PublicId { id }
    }

    pub fn as_str(&self) -> (s: &str)
        ensures
            s@ == self@,
    {
        self.id.as_str()
    }

    /// The reference as text.
    pub fn to_string(&self) -> (s: String)
        ensures
            s@ == self@,
    {
        self.id.clone()
    }
}

impl From<String> for PublicId {
    fn from(id: String) -> (p: PublicId)
        ensures
            p@ == id@,
    {
        PublicId { id }
    }
}

impl vstd::std_specs::convert::FromSpecImpl<String> for PublicId {
    open spec fn obeys_from_spec() -> bool {
        true
    }

    closed spec fn from_spec(id: String) -> PublicId {
        PublicId { id }
    }
}

impl Clone for PublicId {
    fn clone(&self) -> (r: PublicId)
        ensures
            r@ == self@,
    {
        PublicId { id: self.id.clone() }
    }
}

impl PartialEq for PublicId {
    fn eq(&self, other: &PublicId) -> (r: bool) {
        self.id == other.id
    }
}

impl Eq for PublicId {}

impl vstd::std_specs::cmp::PartialEqSpecImpl for PublicId {
    open spec fn obeys_eq_spec() -> bool {
        true
    }

    open spec fn eq_spec(&self, other: &PublicId) -> bool {
        self@ == other@
    }
}

/// The kind of entity a public identifier points at, such as
/// `"credit_facility"`.
#[derive(Debug, Hash)]
pub struct PublicIdTargetType {
    target: String,
}

impl View for PublicIdTargetType {
    type V = Seq<char>;

    closed spec fn view(&self) -> Seq<char> {
        self.target@
    }
}

impl PublicIdTargetType {
    pub fn new(target: &'static str) -> (t: PublicIdTargetType)
        ensures
            t@ == target@,
    {
        PublicIdTargetType { target: target.to_owned() }
    }

    pub fn as_str(&self) -> (s: &str)
        ensures
            s@ == self@,
    {
        self.target.as_str()
    }

    /// The target type as text.
    pub fn to_string(&self) -> (s: String)
        ensures
            s@ == self@,
    {
        self.target.clone()
    }
}

impl Clone for PublicIdTargetType {
    fn clone(&self) -> (r: PublicIdTargetType)
        ensures
            r@ == self@,
    {
        PublicIdTargetType { target: self.target.clone() }
    }
}

impl PartialEq for PublicIdTargetType {
    fn eq(&self, other: &PublicIdTargetType) -> (r: bool) {
        self.target == other.target
    }
}

impl Eq for PublicIdTargetType {}

impl vstd::std_specs::cmp::PartialEqSpecImpl for PublicIdTargetType {
    open spec fn obeys_eq_spec() -> bool {
        true
    }

    open spec fn eq_spec(&self, other: &PublicIdTargetType) -> bool {
        self@ == other@
    }
}

// ---------------------------------------------------------------------------
// The entity
// ---------------------------------------------------------------------------

#[derive(Debug)]
pub enum PublicIdEntityEvent {
    Initialized { id: PublicId, target_id: PublicIdTargetId, target_type: PublicIdTargetType },
}

/// A public identifier and what it points at.
pub struct PublicIdEntity {
    pub id: PublicId,
    pub target_id: PublicIdTargetId,
    pub target_type: PublicIdTargetType,
    pub events: Vec<PublicIdEntityEvent>,
}

impl PublicIdEntity {
    /// The fields are those of the newest event (every event initialises).
    pub open spec fn is_replay_of(&self, events: Seq<PublicIdEntityEvent>) -> bool {
        events.len() > 0 && match events.last() {
            PublicIdEntityEvent::Initialized { id, target_id, target_type } => {
                &&& self.id@ == id@
                &&& self.target_id == target_id
                &&& self.target_type@ == target_type@
            },
        }
    }

    /// Rebuilds the entity from its events. Fails when there are none.
    pub fn try_from_events(events: Vec<PublicIdEntityEvent>) -> (r: Result<
        PublicIdEntity,
        EntityError,
    >)
        ensures
            r is Ok <==> events@.len() > 0,
            r matches Ok(e) ==> e.is_replay_of(events@) && e.events@ == events@,
    {
        let n = events.len();
        if n == 0 {
            return Err(EntityError::UninitializedField);
        }
        let (id, target_id, target_type) = match &events[n - 1] {
            PublicIdEntityEvent::Initialized { id, target_id, target_type } => (
                id.clone(),
                *target_id,
                target_type.clone(),
            ),
        };
        Ok(PublicIdEntity { id, target_id, target_type, events })
    }

    /// `"PublicId: "` followed by the reference.
    pub fn to_string(&self) -> (s: String)
        ensures
            s@ == "PublicId: "@ + self.id@,
    {
        let mut s = String::new();
        s.append("PublicId: ");
        s.append(self.id.as_str());
        s
    }
}

/// The request that creates a public identifier.
pub struct NewPublicIdEntity {
    pub id: PublicId,
    pub target_id: PublicIdTargetId,
    pub target_type: PublicIdTargetType,
}

pub type NewPublicIdEntityBuilderError = BuilderError;

/// Collects the fields of a `NewPublicIdEntity`; every field must be set.
pub struct NewPublicIdEntityBuilder {
    pub id: Option<PublicId>,
    pub target_id: Option<PublicIdTargetId>,
    pub target_type: Option<PublicIdTargetType>,
}

impl NewPublicIdEntity {
    pub fn builder() -> (b: NewPublicIdEntityBuilder)
        ensures
            b.id is None && b.target_id is None && b.target_type is None,
    {
        NewPublicIdEntityBuilder { id: None, target_id: None, target_type: None }
    }

    /// The single `Initialized` event of a new public identifier.
    pub fn into_events(self) -> (events: Vec<PublicIdEntityEvent>)
        ensures
            events@ == seq![
                PublicIdEntityEvent::Initialized {
                    id: self.id,
                    target_id: self.target_id,
                    target_type: self.target_type,
                },
            ],
    {
        let mut v = Vec::new();
        v.push(
            PublicIdEntityEvent::Initialized {
                id: self.id,
                target_id: self.target_id,
                target_type: self.target_type,
            },
        );
        v
    }
}

impl NewPublicIdEntityBuilder {
    pub fn id(self, id: PublicId) -> (b: Self)
        ensures
            b == (NewPublicIdEntityBuilder { id: Some(id), ..self }),
    {
        NewPublicIdEntityBuilder { id: Some(id), ..self }
    }

    pub fn target_id(self, target_id: PublicIdTargetId) -> (b: Self)
        ensures
            b == (NewPublicIdEntityBuilder { target_id: Some(target_id), ..self }),
    {
        NewPublicIdEntityBuilder { target_id: Some(target_id), ..self }
    }

    pub fn target_type(self, target_type: PublicIdTargetType) -> (b: Self)
        ensures
            b == (NewPublicIdEntityBuilder { target_type: Some(target_type), ..self }),
    {
        NewPublicIdEntityBuilder { target_type: Some(target_type), ..self }
    }

    /// Builds the request; fails exactly when a field is unset.
    pub fn build(self) -> (r: Result<NewPublicIdEntity, NewPublicIdEntityBuilderError>)
        ensures
            r is Ok <==> (self.id is Some && self.target_id is Some && self.target_type is Some),
            r matches Err(e) ==> e is UninitializedField,
            r matches Ok(n) ==> n == (NewPublicIdEntity {
                id: self.id->0,
                target_id: self.target_id->0,
                target_type: self.target_type->0,
            }),
    {
        match (self.id, self.target_id, self.target_type) {
            (Some(id), Some(target_id), Some(target_type)) => Ok(
                NewPublicIdEntity { id, target_id, target_type },
            ),
            _ => Err(BuilderError::UninitializedField("public id field")),
        }
    }
}

// ---------------------------------------------------------------------------
// The registry
// ---------------------------------------------------------------------------

/// The decimal digits of a natural number, most significant first.
pub open spec fn decimal_text(n: nat) -> Seq<char>
    decreases n,
{
    if n < 10 {
        seq![digit_char((n % 10) as nat)]
    } else {
        decimal_text(n / 10).push(digit_char((n % 10) as nat))
    }
}

pub open spec fn digit_char(d: nat) -> char {
    if d == 0 {
        '0'
    } else if d == 1 {
        '1'
    } else if d == 2 {
        '2'
    } else if d == 3 {
        '3'
    } else if d == 4 {
        '4'
    } else if d == 5 {
        '5'
    } else if d == 6 {
        '6'
    } else if d == 7 {
        '7'
    } else if d == 8 {
        '8'
    } else {
        '9'
    }
}

fn digit(d: u64) -> (c: char)
    requires
        d < 10,
    ensures
        c == digit_char(d as nat),
{
    if d == 0 {
        '0'
    } else if d == 1 {
        '1'
    } else if d == 2 {
        '2'
    } else if d == 3 {
        '3'
    } else if d == 4 {
        '4'
    } else if d == 5 {
        '5'
    } else if d == 6 {
        '6'
    } else if d == 7 {
        '7'
    } else if d == 8 {
        '8'
    } else {
        '9'
    }
}

/// The decimal text of a number, as `u64`'s `Display` writes it.
pub fn decimal_string(n: u64) -> (s: String)
    ensures
        s@ == decimal_text(n as nat),
    decreases n,
{
    if n < 10 {
        let mut s = String::new();
        push_char(&mut s, digit(n));
        s
    } else {
        let mut s = decimal_string(n / 10);
        push_char(&mut s, digit(n % 10));
        s
    }
}

/// Distinct numbers have distinct decimal texts.
proof fn lemma_decimal_text_injective(a: nat, b: nat)
    requires
        a != b,
    ensures
        decimal_text(a) != decimal_text(b),
    decreases a + b,
{
    if a < 10 && b < 10 {
        assert(decimal_text(a)[0] != decimal_text(b)[0]);
    } else if a < 10 {
        assert(decimal_text(b).len() >= 2) by {
            lemma_decimal_text_len(b / 10);
        }
    } else if b < 10 {
        assert(decimal_text(a).len() >= 2) by {
            lemma_decimal_text_len(a / 10);
        }
    } else if a % 10 != b % 10 {
        assert(decimal_text(a).last() != decimal_text(b).last());
    } else {
        lemma_decimal_text_injective(a / 10, b / 10);
        if decimal_text(a) == decimal_text(b) {
            assert(decimal_text(a).drop_last() =~= decimal_text(a / 10));
            assert(decimal_text(b).drop_last() =~= decimal_text(b / 10));
        }
    }
}

proof fn lemma_decimal_text_len(n: nat)
    ensures
        decimal_text(n).len() >= 1,
    decreases n,
{
    if n >= 10 {
        lemma_decimal_text_len(n / 10);
    }
}

/// Hands out public identifiers in sequence (`"1"`, `"2"`, …) and finds
/// them again.
pub struct PublicIds {
    pub counter: u64,
    pub entries: Vec<PublicIdEntity>,
}

impl PublicIds {
    /// Every held identifier is the decimal text of a number up to the
    /// counter, and no two are equal.
    pub open spec fn is_wf(&self) -> bool {
        &&& forall|i: int|
            0 <= i < self.entries@.len() ==> exists|k: nat|
                1 <= k <= self.counter && #[trigger] self.entries@[i].id@ == decimal_text(k)
        &&& forall|i: int, j: int|
            0 <= i < j < self.entries@.len() ==> #[trigger] self.entries@[i].id@
                != #[trigger] self.entries@[j].id@
    }

    pub fn new() -> (p: PublicIds)
        ensures
            p.counter == 0,
            p.entries@.len() == 0,
            p.is_wf(),
    {
        PublicIds { counter: 0, entries: Vec::new() }
    }

    /// Creates the next public identifier for the target.
    pub fn create(&mut self, target_type: PublicIdTargetType, target_id: PublicIdTargetId) -> (r:
        Result<&PublicIdEntity, EntityError>)
        requires
            old(self).is_wf(),
            old(self).counter < u64::MAX,
        ensures
            final(self).is_wf(),
            final(self).counter == old(self).counter + 1,
            final(self).entries@.len() == old(self).entries@.len() + 1,
            final(self).entries@.take(old(self).entries@.len() as int) == old(self).entries@,
            ({
                let e = final(self).entries@.last();
                &&& e.id@ == decimal_text(final(self).counter as nat)
                &&& e.target_id == target_id
                &&& e.target_type@ == target_type@
            }),
            r matches Ok(e) && *e == final(self).entries@.last(),
    {
        self.counter = self.counter + 1;
        let reference = PublicId::new(decimal_string(self.counter));
        let new_public_id = NewPublicIdEntity::builder().id(reference).target_id(target_id).target_type(
            target_type,
        ).build();
        let new_public_id = match new_public_id {
            Ok(n) => n,
            Err(_) => {
                proof {
                    assert(false);
                }
                return Err(EntityError::UninitializedField);
            },
        };
        let entity = match PublicIdEntity::try_from_events(new_public_id.into_events()) {
            Ok(e) => e,
            Err(_) => {
                return Err(EntityError::UninitializedField);
            },
        };
        proof {
            assert forall|i: int| 0 <= i < self.entries@.len() implies self.entries@[i].id@
                != entity.id@ by {
                let k = choose|k: nat|
                    1 <= k <= self.counter - 1 && #[trigger] self.entries@[i].id@
                        == decimal_text(k);
                lemma_decimal_text_injective(k, self.counter as nat);
            }
        }
        self.entries.push(entity);
        let n = self.entries.len();
        proof {
            assert(self.entries@.take(n - 1) =~= old(self).entries@);
        }
        Ok(&self.entries[n - 1])
    }

    /// The entity of a public identifier, if it was created.
    pub fn find_by_id(&self, id: &PublicId) -> (r: Option<&PublicIdEntity>)
        ensures
            r is None <==> forall|i: int|
                0 <= i < self.entries@.len() ==> #[trigger] self.entries@[i].id@ != id@,
            r matches Some(e) ==> exists|i: int|
                0 <= i < self.entries@.len() && #[trigger] self.entries@[i] == *e && e.id@ == id@,
    {
        let mut i: usize = 0;
        while i < self.entries.len()
            invariant
                i <= self.entries@.len(),
                forall|j: int| 0 <= j < i ==> #[trigger] self.entries@[j].id@ != id@,
            decreases self.entries@.len() - i,
        {
            if str_eq(self.entries[i].id.as_str(), id.as_str()) {
                return Some(&self.entries[i]);
            }
            i += 1;
        }
        None
    }
}

/// In a registry that `new` and `create` built, no two entries share an
/// identifier: the entry `find_by_id` returns for an identifier is the one
/// created with it, whatever was created before or after.
pub proof fn public_ids_are_unique(ids: PublicIds, i: int, j: int)
    requires
        ids.is_wf(),
        0 <= i < ids.entries@.len(),
        0 <= j < ids.entries@.len(),
        ids.entries@[i].id@ == ids.entries@[j].id@,
    ensures
        i == j,
{
    if i < j {
        assert(ids.entries@[i].id@ != ids.entries@[j].id@);
    } else if j < i {
        assert(ids.entries@[j].id@ != ids.entries@[i].id@);
    }
}
/// A public identifier rebuilt from the events of a new request (what
/// `into_events` gives) exists and has the request's reference, target and
/// target type.
pub proof fn new_public_id_round_trip(request: NewPublicIdEntity, entity: PublicIdEntity)
    ensures
        ({
            let events = seq![
                PublicIdEntityEvent::Initialized {
                    id: request.id,
                    target_id: request.target_id,
                    target_type: request.target_type,
                },
            ];
            &&& events.len() > 0
            &&& entity.is_replay_of(events) ==> {
                &&& entity.id@ == request.id@
                &&& entity.target_id == request.target_id
                &&& entity.target_type@ == request.target_type@
            }
        }),
{
}

} // verus!
