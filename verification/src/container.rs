//! What the emitted implementations do, carried out by one container that is
//! handed its schema at run time.
//!
//! A payload type selects the implementation emitted for the case with that
//! payload, as the type parameter of `From`, `TryInto`, `TryAsRef` and
//! `TryAsMut` does in the emitted source.

use crate::schema::{case_views, Schema, SchemaView};
use vstd::prelude::*;

verus! {

/// Whether `i` is the position of a case whose payload type is written
/// `payload_type`.
pub open spec fn has_payload(schema: SchemaView, i: int, payload_type: Seq<char>) -> bool {
    0 <= i < schema.cases.len() && schema.cases[i].payload == payload_type
}

/// The position of the case whose payload type is written `payload_type`. In
/// a valid schema at most one case has it.
pub open spec fn case_of(schema: SchemaView, payload_type: Seq<char>) -> Option<int> {
    if exists|i: int| has_payload(schema, i, payload_type) {
        Some(choose|i: int| has_payload(schema, i, payload_type))
    } else {
        None
    }
}

/// A value of the enum that a schema describes: the position of the case it
/// holds, and the payload.
pub struct Held<V> {
    pub case: int,
    pub payload: V,
}

/// `From<T>`: the payload wrapped in the case of payload type `T`. There is
/// no such conversion for a type that is no payload type of the schema.
pub open spec fn forward<V>(schema: SchemaView, payload_type: Seq<char>, value: V) -> Option<
    Held<V>,
> {
    match case_of(schema, payload_type) {
        Some(case) => Some(Held { case, payload: value }),
        None => None,
    }
}

/// `TryInto<T>`: the payload if the case held is that of payload type `T`,
/// else the value itself.
pub open spec fn back<V>(schema: SchemaView, held: Held<V>, payload_type: Seq<char>) -> Result<
    V,
    Held<V>,
> {
    if case_of(schema, payload_type) == Some(held.case) {
        Ok(held.payload)
    } else {
        Err(held)
    }
}

/// `TryAsRef<T>` and `TryAsMut<T>`: the payload if the case held is that of
/// payload type `T`.
pub open spec fn project<V>(schema: SchemaView, held: Held<V>, payload_type: Seq<char>) -> Option<
    V,
> {
    if case_of(schema, payload_type) == Some(held.case) {
        Some(held.payload)
    } else {
        None
    }
}

/// `TypedContainer::type_id`: the payload type of the case held.
pub open spec fn type_identity<V>(schema: SchemaView, held: Held<V>) -> Seq<char> {
    schema.cases[held.case].payload
}

/// `TypedContainer::holds::<T>`: whether the payload type of the case held
/// is `T`.
pub open spec fn holds_type<V>(schema: SchemaView, held: Held<V>, payload_type: Seq<char>) -> bool {
    type_identity(schema, held) == payload_type
}

/// In a valid schema the case of a payload type is the case that has it.
pub proof fn lemma_case_of_payload(schema: SchemaView, i: int)
    requires
        schema.valid(),
        0 <= i < schema.cases.len(),
    ensures
        case_of(schema, schema.cases[i].payload) == Some(i),
{
    assert(has_payload(schema, i, schema.cases[i].payload));
}

/// A payload converted into the container and converted back to its own
/// type comes out as it went in.
pub proof fn law_round_trip<V>(schema: SchemaView, i: int, value: V)
    requires
        schema.valid(),
        0 <= i < schema.cases.len(),
    ensures
        forward(schema, schema.cases[i].payload, value) matches Some(held) && back(
            schema,
            held,
            schema.cases[i].payload,
        ) == Ok::<V, Held<V>>(value),
{
    lemma_case_of_payload(schema, i);
}

/// A payload converted into the container cannot be taken out, nor borrowed,
/// as the payload type of another case: the conversion back returns the
/// container, the projections return nothing.
pub proof fn law_exclusive<V>(schema: SchemaView, i: int, other: int, value: V)
    requires
        schema.valid(),
        0 <= i < schema.cases.len(),
        0 <= other < schema.cases.len(),
        schema.cases[i].payload != schema.cases[other].payload,
    ensures
        forward(schema, schema.cases[i].payload, value) matches Some(held) && back(
            schema,
            held,
            schema.cases[other].payload,
        ) == Err::<V, Held<V>>(held) && project(schema, held, schema.cases[other].payload) is None,
{
    lemma_case_of_payload(schema, i);
    lemma_case_of_payload(schema, other);
}

/// A conversion back that fails returns the container it was given, with
/// the same case and the same payload.
pub proof fn law_failure_returns_value<V>(
    schema: SchemaView,
    held: Held<V>,
    payload_type: Seq<char>,
)
    ensures
        back(schema, held, payload_type) matches Err(returned) ==> returned == held,
{
}

/// After a payload was written through the mutable projection of a type,
/// the projection of the same type shows what was written.
pub proof fn law_mutation_visible<V>(
    schema: SchemaView,
    held: Held<V>,
    payload_type: Seq<char>,
    written: V,
)
    requires
        project(schema, held, payload_type) is Some,
    ensures
        project(schema, Held { case: held.case, payload: written }, payload_type) == Some(written),
{
}

/// A payload converted into the container is reported as of its own type,
/// and as of no other case's payload type.
pub proof fn law_type_identity<V>(schema: SchemaView, i: int, value: V)
    requires
        schema.valid(),
        0 <= i < schema.cases.len(),
    ensures
        forward(schema, schema.cases[i].payload, value) matches Some(held) && type_identity(
            schema,
            held,
        ) == schema.cases[i].payload && holds_type(schema, held, schema.cases[i].payload)
            && forall|other: int|
            0 <= other < schema.cases.len() && other != i ==> !holds_type(
                schema,
                held,
                (#[trigger] schema.cases[other]).payload,
            ),
{
    lemma_case_of_payload(schema, i);
}

fn find_case(schema: &Schema, payload_type: &str) -> (found: Option<usize>)
    ensures
        schema@.valid(),
        match found {
            Some(i) => case_of(schema@, payload_type@) == Some(i as int) && i < schema@.cases.len(),
            None => case_of(schema@, payload_type@) is None,
        },
{
    let wanted = payload_type.to_owned();
    let cases = schema.cases();
    let mut i: usize = 0;
    while i < cases.len()
        invariant
            i <= cases.len(),
            wanted@ == payload_type@,
            case_views(cases@) == schema@.cases,
            schema@.valid(),
            forall|j: int| 0 <= j < i ==> !has_payload(schema@, j, payload_type@),
        decreases cases.len() - i,
    {
        if cases[i].payload == wanted {
            assert(has_payload(schema@, i as int, payload_type@));
            return Some(i);
        }
        i += 1;
    }
    None
}

/// A case of a schema: the schema and the position of the case in it.
#[derive(Debug, PartialEq, Eq)]
struct Tag<'a> {
    schema: &'a Schema,
    case: usize,
}

impl<'a> Tag<'a> {
    #[verifier::type_invariant]
    spec fn well_formed(self) -> bool {
        self.case < self.schema@.cases.len()
    }

    fn payload_type(&self) -> (written: &'a String)
        ensures
            self.case < self.schema@.cases.len(),
            written@ == self.schema@.cases[self.case as int].payload,
    {
        proof {
            use_type_invariant(self);
        }
        let cases = self.schema.cases();
        &cases[self.case].payload
    }
}

/// A value of the enum that a schema describes.
#[derive(Debug, PartialEq, Eq)]
pub struct Container<'a, V> {
    tag: Tag<'a>,
    payload: V,
}

impl<'a, V> View for Container<'a, V> {
    type V = Held<V>;

    closed spec fn view(&self) -> Held<V> {
        Held { case: self.tag.case as int, payload: self.payload }
    }
}

impl<'a, V> Container<'a, V> {
    /// The schema that the container was made for.
    pub closed spec fn schema(self) -> Schema {
        *self.tag.schema
    }

    /// The position of the case held, which is a case of the schema.
    pub fn case(&self) -> (position: usize)
        ensures
            position == self@.case,
            position < self.schema()@.cases.len(),
    {
        proof {
            use_type_invariant(&self.tag);
        }
        self.tag.case
    }

    /// Wraps a payload in the case of the given payload type, as `From<T>`
    /// does; hands the payload back where the schema has no such case.
    pub fn from_payload(schema: &'a Schema, payload_type: &str, value: V) -> (r: Result<Self, V>)
        ensures
            match forward(schema@, payload_type@, value) {
                Some(held) => r matches Ok(c) && c@ == held && c.schema() == *schema,
                None => r == Err::<Self, V>(value),
            },
    {
        match find_case(schema, payload_type) {
            Some(case) => Ok(Container { tag: Tag { schema, case }, payload: value }),
            None => Err(value),
        }
    }

    /// Unwraps the payload if it is of the given type, as `TryInto<T>` does;
    /// else hands the container back unchanged.
    pub fn try_into(self, payload_type: &str) -> (r: Result<V, Self>)
        ensures
            match back(self.schema()@, self@, payload_type@) {
                Ok(payload) => r == Ok::<V, Self>(payload),
                Err(_) => r == Err::<V, Self>(self),
            },
    {
        match find_case(self.tag.schema, payload_type) {
            Some(case) => if case == self.tag.case {
                Ok(self.payload)
            } else {
                Err(self)
            },
            None => Err(self),
        }
    }

    /// Borrows the payload if it is of the given type, as `TryAsRef<T>` does.
    pub fn try_as_ref(&self, payload_type: &str) -> (r: Option<&V>)
        ensures
            match project(self.schema()@, self@, payload_type@) {
                Some(payload) => r == Some(&payload),
                None => r is None,
            },
    {
        match find_case(self.tag.schema, payload_type) {
            Some(case) => if case == self.tag.case {
                Some(&self.payload)
            } else {
                None
            },
            None => None,
        }
    }

    /// Borrows the payload mutably if it is of the given type, as
    /// `TryAsMut<T>` does. What is written through the reference becomes the
    /// payload; the case held stays.
    pub fn try_as_mut(&mut self, payload_type: &str) -> (r: Option<&mut V>)
        ensures
            final(self).schema() == old(self).schema(),
            match project(old(self).schema()@, old(self)@, payload_type@) {
                Some(payload) => r matches Some(p) && *p == payload && final(self)@ == (Held {
                    case: old(self)@.case,
                    payload: *final(p),
                }),
                None => r is None && final(self)@ == old(self)@,
            },
    {
        match find_case(self.tag.schema, payload_type) {
            Some(case) => if case == self.tag.case {
                Some(&mut self.payload)
            } else {
                None
            },
            None => None,
        }
    }

    /// The payload type of the case held, as written in the schema: what
    /// `TypedContainer::type_id` identifies.
    pub fn type_id(&self) -> (written: &'a String)
        ensures
            0 <= self@.case < self.schema()@.cases.len(),
            written@ == type_identity(self.schema()@, self@),
    {
        self.tag.payload_type()
    }

    /// Whether the payload held is of the given type, as
    /// `TypedContainer::holds::<T>` tells.
    pub fn holds(&self, payload_type: &str) -> (held: bool)
        ensures
            held == holds_type(self.schema()@, self@, payload_type@),
    {
        let wanted = payload_type.to_owned();
        *self.type_id() == wanted
    }
}

} // verus!
