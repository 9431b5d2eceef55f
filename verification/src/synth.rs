//! Emission of the implementations of a capability, as source text, from a
//! schema.

use crate::schema::{texts, Case, CaseView, Schema, SchemaView};
use vstd::prelude::*;
use vstd::string::StringExecFns;

verus! {

/// The capabilities that can be emitted for a schema.
#[derive(Clone, Copy, Debug, PartialEq, Eq, Structural)]
pub enum CapabilityKind {
    /// `From<T>`: wraps a payload in its case.
    ForwardConversion,
    /// `TryInto<T>`: unwraps the payload, or hands the container back.
    FallibleBackConversion,
    /// `TryAsRef<T>`: borrows the payload, if it is of that type.
    FallibleRefProjection,
    /// `TryAsMut<T>`: borrows the payload mutably, if it is of that type.
    FallibleMutProjection,
    /// `TypedContainer`: reports the type of the payload held.
    TypeIdentification,
}

/// The implementations emitted for one capability: each block is one `impl`
/// item as source text.
#[derive(Clone, Debug, PartialEq, Eq)]
pub struct GeneratedImplementationSet {
    pub blocks: Vec<String>,
}

impl View for GeneratedImplementationSet {
    type V = Seq<Seq<char>>;

    open spec fn view(&self) -> Seq<Seq<char>> {
        texts(self.blocks@)
    }
}

/// `impl From<T> for C` for one case: the payload is wrapped in the case.
pub open spec fn from_impl(container: Seq<char>, case: CaseView) -> Seq<char> {
    "impl From<"@ + case.payload + "> for "@ + container + " { fn from(a: "@ + case.payload
        + ") -> "@ + container + " { Self::"@ + case.name + "(a) } }"@
}

/// `impl TryInto<T> for C` for one case: the payload if the container holds
/// the case, else the container itself as the error.
pub open spec fn try_into_impl(container: Seq<char>, case: CaseView) -> Seq<char> {
    "impl TryInto<"@ + case.payload + "> for "@ + container
        + " { type Error = Self; fn try_into(self) -> Result<"@ + case.payload
        + ", Self::Error> { if let Self::"@ + case.name
        + "(a) = self { Ok(a) } else { Err(self) } } }"@
}

/// `impl traits::TryAsRef<T> for C` for one case: a reference to the payload
/// if the container holds the case, else `None`.
pub open spec fn try_as_ref_impl(container: Seq<char>, case: CaseView) -> Seq<char> {
    "impl traits::TryAsRef<"@ + case.payload + "> for "@ + container
        + " { fn try_as_ref(&self) -> Option<&"@ + case.payload + "> { if let Self::"@ + case.name
        + "(a) = self { Some(a) } else { None } } }"@
}

/// `impl traits::TryAsMut<T> for C` for one case: a mutable reference to the
/// payload if the container holds the case, else `None`.
pub open spec fn try_as_mut_impl(container: Seq<char>, case: CaseView) -> Seq<char> {
    "impl traits::TryAsMut<"@ + case.payload + "> for "@ + container
        + " { fn try_as_mut(&mut self) -> Option<&mut "@ + case.payload + "> { if let Self::"@
        + case.name + "(a) = self { Some(a) } else { None } } }"@
}

/// The match arm of `type_id` for one case: the identity of its payload type.
pub open spec fn type_id_arm(container: Seq<char>, case: CaseView) -> Seq<char> {
    container + "::"@ + case.name + "(_) => std::any::TypeId::of::<"@ + case.payload + ">()"@
}

/// What is emitted for one case: an `impl` item, or for type identification
/// one match arm.
pub open spec fn case_text(kind: CapabilityKind, container: Seq<char>, case: CaseView) -> Seq<
    char,
> {
    match kind {
        CapabilityKind::ForwardConversion => from_impl(container, case),
        CapabilityKind::FallibleBackConversion => try_into_impl(container, case),
        CapabilityKind::FallibleRefProjection => try_as_ref_impl(container, case),
        CapabilityKind::FallibleMutProjection => try_as_mut_impl(container, case),
        CapabilityKind::TypeIdentification => type_id_arm(container, case),
    }
}

/// What is emitted for each case of a schema, in declaration order.
pub open spec fn case_texts(kind: CapabilityKind, schema: SchemaView) -> Seq<Seq<char>> {
    Seq::new(schema.cases.len(), |i: int| case_text(kind, schema.container_name, schema.cases[i]))
}

/// The first `n` parts with `, ` between each two.
pub open spec fn comma_separated(parts: Seq<Seq<char>>, n: int) -> Seq<char>
    decreases n,
{
    if n <= 0 {
        Seq::empty()
    } else if n == 1 {
        parts[0]
    } else {
        comma_separated(parts, n - 1) + ", "@ + parts[n - 1]
    }
}

/// `impl traits::TypedContainer for C`: one `match` with an arm per case.
pub open spec fn typed_container_impl(schema: SchemaView) -> Seq<char> {
    let arms = case_texts(CapabilityKind::TypeIdentification, schema);
    "impl traits::TypedContainer for "@ + schema.container_name
        + " { fn type_id(&self) -> std::any::TypeId { match self { "@ + comma_separated(
        arms,
        arms.len() as int,
    ) + " } } }"@
}

/// The blocks emitted for a capability: one per case in declaration order,
/// or for type identification one block for the whole schema.
pub open spec fn synthesis(schema: SchemaView, kind: CapabilityKind) -> Seq<Seq<char>> {
    match kind {
        CapabilityKind::TypeIdentification => seq![typed_container_impl(schema)],
        _ => case_texts(kind, schema),
    }
}

/// The first `n` blocks, each followed by a line break.
pub open spec fn lines(blocks: Seq<Seq<char>>, n: int) -> Seq<char>
    decreases n,
{
    if n <= 0 {
        Seq::empty()
    } else {
        lines(blocks, n - 1) + blocks[n - 1] + "\n"@
    }
}

impl GeneratedImplementationSet {
    /// All blocks as one text, a line for each.
    pub fn render(&self) -> (text: String)
        ensures
            text@ == lines(self@, self@.len() as int),
    {
        let mut text = String::new();
        let mut i: usize = 0;
        while i < self.blocks.len()
            invariant
                i <= self.blocks.len(),
                text@ == lines(self@, i as int),
            decreases self.blocks.len() - i,
        {
            text.append(self.blocks[i].as_str());
            text.append("\n");
            i += 1;
        }
        text
    }
}

fn emit_from_impl(container: &String, case: &Case) -> (text: String)
    ensures
        text@ == from_impl(container@, case@),
{
    let mut text = String::from_str("impl From<");
    text.append(case.payload.as_str());
    text.append("> for ");
    text.append(container.as_str());
    text.append(" { fn from(a: ");
    text.append(case.payload.as_str());
    text.append(") -> ");
    text.append(container.as_str());
    text.append(" { Self::");
    text.append(case.name.as_str());
    text.append("(a) } }");
    text
}

fn emit_try_into_impl(container: &String, case: &Case) -> (text: String)
    ensures
        text@ == try_into_impl(container@, case@),
{
    let mut text = String::from_str("impl TryInto<");
    text.append(case.payload.as_str());
    text.append("> for ");
    text.append(container.as_str());
    text.append(" { type Error = Self; fn try_into(self) -> Result<");
    text.append(case.payload.as_str());
    text.append(", Self::Error> { if let Self::");
    text.append(case.name.as_str());
    text.append("(a) = self { Ok(a) } else { Err(self) } } }");
    text
}

fn emit_try_as_ref_impl(container: &String, case: &Case) -> (text: String)
    ensures
        text@ == try_as_ref_impl(container@, case@),
{
    let mut text = String::from_str("impl traits::TryAsRef<");
    text.append(case.payload.as_str());
    text.append("> for ");
    text.append(container.as_str());
    text.append(" { fn try_as_ref(&self) -> Option<&");
    text.append(case.payload.as_str());
    text.append("> { if let Self::");
    text.append(case.name.as_str());
    text.append("(a) = self { Some(a) } else { None } } }");
    text
}

fn emit_try_as_mut_impl(container: &String, case: &Case) -> (text: String)
    ensures
        text@ == try_as_mut_impl(container@, case@),
{
    let mut text = String::from_str("impl traits::TryAsMut<");
    text.append(case.payload.as_str());
    text.append("> for ");
    text.append(container.as_str());
    text.append(" { fn try_as_mut(&mut self) -> Option<&mut ");
    text.append(case.payload.as_str());
    text.append("> { if let Self::");
    text.append(case.name.as_str());
    text.append("(a) = self { Some(a) } else { None } } }");
    text
}

fn emit_type_id_arm(container: &String, case: &Case) -> (text: String)
    ensures
        text@ == type_id_arm(container@, case@),
{
    let mut text = String::from_str(container.as_str());
    text.append("::");
    text.append(case.name.as_str());
    text.append("(_) => std::any::TypeId::of::<");
    text.append(case.payload.as_str());
    text.append(">()");
    text
}

fn emit_case(kind: CapabilityKind, container: &String, case: &Case) -> (text: String)
    ensures
        text@ == case_text(kind, container@, case@),
{
    match kind {
        CapabilityKind::ForwardConversion => emit_from_impl(container, case),
        CapabilityKind::FallibleBackConversion => emit_try_into_impl(container, case),
        CapabilityKind::FallibleRefProjection => emit_try_as_ref_impl(container, case),
        CapabilityKind::FallibleMutProjection => emit_try_as_mut_impl(container, case),
        CapabilityKind::TypeIdentification => emit_type_id_arm(container, case),
    }
}

fn emit_cases(schema: &Schema, kind: CapabilityKind) -> (blocks: Vec<String>)
    ensures
        texts(blocks@) == case_texts(kind, schema@),
{
    let container = schema.container_name();
    let cases = schema.cases();
    let mut blocks: Vec<String> = Vec::new();
    let mut i: usize = 0;
    while i < cases.len()
        invariant
            i <= cases.len(),
            container@ == schema@.container_name,
            crate::schema::case_views(cases@) == schema@.cases,
            blocks.len() == i,
            forall|j: int| 0 <= j < i ==> #[trigger] blocks[j]@ == case_texts(kind, schema@)[j],
        decreases cases.len() - i,
    {
        let text = emit_case(kind, container, &cases[i]);
        blocks.push(text);
        i += 1;
    }
    blocks
}

/// Emits `From<T>` for the container, once for each case.
pub fn gen_from_impls(schema: &Schema) -> (set: GeneratedImplementationSet)
    ensures
        set@ == synthesis(schema@, CapabilityKind::ForwardConversion),
{
    GeneratedImplementationSet { blocks: emit_cases(schema, CapabilityKind::ForwardConversion) }
}

/// Emits `TryInto<T>` for the container, once for each case.
pub fn gen_try_into_impl(schema: &Schema) -> (set: GeneratedImplementationSet)
    ensures
        set@ == synthesis(schema@, CapabilityKind::FallibleBackConversion),
{
    GeneratedImplementationSet {
        blocks: emit_cases(schema, CapabilityKind::FallibleBackConversion),
    }
}

/// Emits `TryAsRef<T>` for the container, once for each case.
pub fn gen_try_as_ref(schema: &Schema) -> (set: GeneratedImplementationSet)
    ensures
        set@ == synthesis(schema@, CapabilityKind::FallibleRefProjection),
{
    GeneratedImplementationSet {
        blocks: emit_cases(schema, CapabilityKind::FallibleRefProjection),
    }
}

/// Emits `TryAsMut<T>` for the container, once for each case.
pub fn gen_try_as_mut(schema: &Schema) -> (set: GeneratedImplementationSet)
    ensures
        set@ == synthesis(schema@, CapabilityKind::FallibleMutProjection),
{
    GeneratedImplementationSet {
        blocks: emit_cases(schema, CapabilityKind::FallibleMutProjection),
    }
}

/// Emits `TypedContainer` for the container: a single implementation whose
/// `type_id` has one match arm for each case.
pub fn gen_typed_value(schema: &Schema) -> (set: GeneratedImplementationSet)
    ensures
        set@ == synthesis(schema@, CapabilityKind::TypeIdentification),
{
    let arms = emit_cases(schema, CapabilityKind::TypeIdentification);
    let mut text = String::from_str("impl traits::TypedContainer for ");
    text.append(schema.container_name().as_str());
    text.append(" { fn type_id(&self) -> std::any::TypeId { match self { ");
    let ghost head = text@;
    let mut i: usize = 0;
    while i < arms.len()
        invariant
            i <= arms.len(),
            text@ == head + comma_separated(texts(arms@), i as int),
        decreases arms.len() - i,
    {
        if i > 0 {
            text.append(", ");
        }
        text.append(arms[i].as_str());
        i += 1;
    }
    text.append(" } } }");
    let mut blocks: Vec<String> = Vec::new();
    blocks.push(text);
    let set = GeneratedImplementationSet { blocks };
    set
}

/// Emits the implementations of one capability for a schema. Given a schema
/// this cannot fail: every check was made when the schema was drawn.
pub fn synthesize(schema: &Schema, capability: CapabilityKind) -> (set: GeneratedImplementationSet)
    ensures
        set@ == synthesis(schema@, capability),
{
    match capability {
        CapabilityKind::ForwardConversion => gen_from_impls(schema),
        CapabilityKind::FallibleBackConversion => gen_try_into_impl(schema),
        CapabilityKind::FallibleRefProjection => gen_try_as_ref(schema),
        CapabilityKind::FallibleMutProjection => gen_try_as_mut(schema),
        CapabilityKind::TypeIdentification => gen_typed_value(schema),
    }
}

} // verus!
