//! The derivations from end to end: a definition is read, checked, and the
//! implementations of one capability are emitted for it, or the first failed
//! check is reported and nothing is emitted.

use crate::schema::{
    extraction, message_text, parse_enum_definition, BodyView, DefinitionBody, DefinitionView,
    TypeDefinition, ValidationError,
};
use crate::syntax::{outline, read_definition, written};
use crate::synth::{lines, synthesis, synthesize, CapabilityKind};
use vstd::prelude::*;
use vstd::string::StringExecFns;

verus! {

/// What deriving a capability for a definition gives: the emitted source,
/// a line for each block, or the error of the first failed check.
pub open spec fn emission(d: DefinitionView, kind: CapabilityKind) -> Result<
    Seq<char>,
    ValidationError,
> {
    match extraction(d) {
        Ok(schema) => Ok(lines(synthesis(schema, kind), synthesis(schema, kind).len() as int)),
        Err(e) => Err(e),
    }
}

/// Whether `r` is what deriving gives for a definition that was read from
/// the item.
pub open spec fn derives(
    item: syn::DeriveInput,
    kind: CapabilityKind,
    r: Result<String, ValidationError>,
) -> bool {
    exists|d: DefinitionView|
        #![trigger outline(d)]
        outline(d) == written(item) && match emission(d, kind) {
            Ok(text) => r matches Ok(emitted) && emitted@ == text,
            Err(e) => r == Err::<String, ValidationError>(e),
        }
}

/// Where a check fails nothing is emitted, whatever the capability: the
/// error of the check is all there is.
pub proof fn law_rejected_emits_nothing(d: DefinitionView, kind: CapabilityKind)
    ensures
        extraction(d) matches Err(e) ==> emission(d, kind) == Err::<Seq<char>, ValidationError>(e),
{
}

/// Derives one capability for a definition: checks it, and emits the
/// implementations if every check passes.
pub fn derive_capability(definition: &TypeDefinition, capability: CapabilityKind) -> (r: Result<
    String,
    ValidationError,
>)
    ensures
        match emission(definition@, capability) {
            Ok(text) => r matches Ok(emitted) && emitted@ == text,
            Err(e) => r == Err::<String, ValidationError>(e),
        },
{
    match parse_enum_definition(definition) {
        Ok(schema) => Ok(synthesize(&schema, capability).render()),
        Err(e) => Err(e),
    }
}

/// Derives `From<T>` for each payload type of an enum.
pub fn derive_from(input: &syn::DeriveInput) -> (r: Result<String, ValidationError>)
    ensures
        derives(*input, CapabilityKind::ForwardConversion, r),
{
    let definition = read_definition(input);
    derive_capability(&definition, CapabilityKind::ForwardConversion)
}

/// Derives `TryInto<T>` for each payload type of an enum.
pub fn derive_try_int(input: &syn::DeriveInput) -> (r: Result<String, ValidationError>)
    ensures
        derives(*input, CapabilityKind::FallibleBackConversion, r),
{
    let definition = read_definition(input);
    derive_capability(&definition, CapabilityKind::FallibleBackConversion)
}

/// Derives `TryAsRef<T>` for each payload type of an enum.
pub fn derive_try_as_ref(input: &syn::DeriveInput) -> (r: Result<String, ValidationError>)
    ensures
        derives(*input, CapabilityKind::FallibleRefProjection, r),
{
    let definition = read_definition(input);
    derive_capability(&definition, CapabilityKind::FallibleRefProjection)
}

/// Derives `TryAsMut<T>` for each payload type of an enum.
pub fn derive_try_as_mut(input: &syn::DeriveInput) -> (r: Result<String, ValidationError>)
    ensures
        derives(*input, CapabilityKind::FallibleMutProjection, r),
{
    let definition = read_definition(input);
    derive_capability(&definition, CapabilityKind::FallibleMutProjection)
}

/// Derives `TypedContainer` for an enum.
pub fn derive_typed_value(input: &syn::DeriveInput) -> (r: Result<String, ValidationError>)
    ensures
        derives(*input, CapabilityKind::TypeIdentification, r),
{
    let definition = read_definition(input);
    derive_capability(&definition, CapabilityKind::TypeIdentification)
}

/// The message of an error and, where the error is about a case of the
/// definition, the name of that case.
pub open spec fn diagnostic_text(d: DefinitionView, error: ValidationError) -> Seq<char> {
    match (error.spec_case(), d.body) {
        (Some(k), BodyView::Variants(cases)) => if k < cases.len() {
            message_text(error) + " Variant: "@ + cases[k as int].name
        } else {
            message_text(error)
        },
        _ => message_text(error),
    }
}

/// What to tell the user when a derivation fails: what is wrong and, where a
/// case is at fault, which.
pub fn diagnostic(definition: &TypeDefinition, error: ValidationError) -> (text: String)
    ensures
        text@ == diagnostic_text(definition@, error),
{
    let mut text = error.message();
    match (error.case(), &definition.body) {
        (Some(k), DefinitionBody::Variants(cases)) => {
            if k < cases.len() {
                text.append(" Variant: ");
                text.append(cases[k].name.as_str());
            }
        },
        _ => {},
    }
    text
}

} // verus!
