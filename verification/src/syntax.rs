//! Reading a definition out of the syntax tree that `syn` parses for a derive
//! macro.

use crate::schema::{
    BodyView, CaseDefinition, CaseDefinitionView, CaseFields, DefinitionBody, DefinitionView,
    FieldsView, TypeDefinition,
};
use quote::ToTokens;
use vstd::prelude::*;

verus! {

/// `syn::DeriveInput`, the syntax tree of the item under a derive. Nothing of
/// its inside is known here but through the functions below.
#[verifier::external_type_specification]
#[verifier::external_body]
pub struct ExDeriveInput(syn::DeriveInput);

/// Whether an item is an enum, a struct or a union.
#[derive(Clone, Copy, Debug, PartialEq, Eq, Structural)]
pub enum ItemKind {
    Enum,
    Struct,
    Union,
}

/// How the fields of a variant are written.
#[derive(Clone, Copy, Debug, PartialEq, Eq, Structural)]
pub enum FieldsKind {
    Unit,
    Named,
    Unnamed,
}

/// The fields of a variant without their types: how they are written, and
/// how many there are.
pub enum FieldsOutline {
    Unit,
    Named(nat),
    Unnamed(nat),
}

impl FieldsOutline {
    pub open spec fn kind(self) -> FieldsKind {
        match self {
            FieldsOutline::Unit => FieldsKind::Unit,
            FieldsOutline::Named(_) => FieldsKind::Named,
            FieldsOutline::Unnamed(_) => FieldsKind::Unnamed,
        }
    }

    pub open spec fn count(self) -> nat {
        match self {
            FieldsOutline::Unit => 0,
            FieldsOutline::Named(n) => n,
            FieldsOutline::Unnamed(n) => n,
        }
    }
}

/// A variant without the types of its fields.
pub struct VariantOutline {
    pub name: Seq<char>,
    pub fields: FieldsOutline,
}

/// The body of an item without the types of its fields: for an enum its
/// variants in declaration order.
pub enum BodyOutline {
    Enum(Seq<VariantOutline>),
    Struct,
    Union,
}

impl BodyOutline {
    pub open spec fn kind(self) -> ItemKind {
        match self {
            BodyOutline::Enum(_) => ItemKind::Enum,
            BodyOutline::Struct => ItemKind::Struct,
            BodyOutline::Union => ItemKind::Union,
        }
    }

    pub open spec fn variants(self) -> Seq<VariantOutline> {
        match self {
            BodyOutline::Enum(variants) => variants,
            _ => Seq::empty(),
        }
    }
}

/// An item without the types of its fields.
pub struct Outline {
    pub name: Seq<char>,
    pub type_params: nat,
    pub lifetimes: nat,
    pub const_params: nat,
    pub body: BodyOutline,
}

/// What a syntax tree holds, but for the types of fields: the item's
/// identifier, the numbers of type, lifetime and const parameters among its
/// generics, which variant of `syn::Data` it is, and for an enum its
/// variants in order, each with its identifier, its variant of `syn::Fields`
/// and the number of its fields.
pub uninterp spec fn written(item: syn::DeriveInput) -> Outline;

/// The variants that a syntax tree holds, without the types of their fields;
/// none for a struct or a union.
pub open spec fn written_variants(item: syn::DeriveInput) -> Seq<VariantOutline> {
    written(item).body.variants()
}

/// Calls `to_string` on the `ident` of the item: the text is the item's
/// identifier.
#[verifier::external_body]
fn read_name(item: &syn::DeriveInput) -> (name: String)
    ensures
        name@ == written(*item).name,
{
    item.ident.to_string()
}

/// Counts what `Generics::type_params` yields: the type parameters among
/// the item's generics.
#[verifier::external_body]
fn count_type_params(item: &syn::DeriveInput) -> (n: usize)
    ensures
        n == written(*item).type_params,
{
    item.generics.type_params().count()
}

/// Counts what `Generics::lifetimes` yields: the lifetime parameters among
/// the item's generics.
#[verifier::external_body]
fn count_lifetimes(item: &syn::DeriveInput) -> (n: usize)
    ensures
        n == written(*item).lifetimes,
{
    item.generics.lifetimes().count()
}

/// Counts what `Generics::const_params` yields: the const parameters among
/// the item's generics.
#[verifier::external_body]
fn count_const_params(item: &syn::DeriveInput) -> (n: usize)
    ensures
        n == written(*item).const_params,
{
    item.generics.const_params().count()
}

/// Tells the variants of `syn::Data` apart.
#[verifier::external_body]
fn read_kind(item: &syn::DeriveInput) -> (kind: ItemKind)
    ensures
        kind == written(*item).body.kind(),
{
    match &item.data {
        syn::Data::Enum(_) => ItemKind::Enum,
        syn::Data::Struct(_) => ItemKind::Struct,
        syn::Data::Union(_) => ItemKind::Union,
    }
}

/// Calls `Punctuated::len` on the variants of an enum: their number. A
/// struct or a union has none.
#[verifier::external_body]
fn count_variants(item: &syn::DeriveInput) -> (n: usize)
    ensures
        n == written_variants(*item).len(),
{
    match &item.data {
        syn::Data::Enum(data) => data.variants.len(),
        syn::Data::Struct(_) => 0,
        syn::Data::Union(_) => 0,
    }
}

/// Calls `to_string` on the `ident` of variant `i`: the text is the
/// variant's identifier. Indexing the variants stops the program where there
/// is no variant `i`, which `requires` rules out.
#[verifier::external_body]
fn read_variant_name(item: &syn::DeriveInput, i: usize) -> (name: String)
    requires
        i < written_variants(*item).len(),
    ensures
        name@ == written_variants(*item)[i as int].name,
{
    match &item.data {
        syn::Data::Enum(data) => data.variants[i].ident.to_string(),
        syn::Data::Struct(_) => String::new(),
        syn::Data::Union(_) => String::new(),
    }
}

/// Tells the variants of `syn::Fields` apart for variant `i`. Indexing the
/// variants stops the program where there is no variant `i`, which
/// `requires` rules out.
#[verifier::external_body]
fn read_fields_kind(item: &syn::DeriveInput, i: usize) -> (kind: FieldsKind)
    requires
        i < written_variants(*item).len(),
    ensures
        kind == written_variants(*item)[i as int].fields.kind(),
{
    match &item.data {
        syn::Data::Enum(data) => match &data.variants[i].fields {
            syn::Fields::Named(_) => FieldsKind::Named,
            syn::Fields::Unnamed(_) => FieldsKind::Unnamed,
            syn::Fields::Unit => FieldsKind::Unit,
        },
        syn::Data::Struct(_) => FieldsKind::Unit,
        syn::Data::Union(_) => FieldsKind::Unit,
    }
}

/// Calls `Fields::len` on variant `i`: the number of its fields, which is 0
/// for `Fields::Unit`. Indexing the variants stops the program where there
/// is no variant `i`, which `requires` rules out.
#[verifier::external_body]
fn count_fields(item: &syn::DeriveInput, i: usize) -> (n: usize)
    requires
        i < written_variants(*item).len(),
    ensures
        n == written_variants(*item)[i as int].fields.count(),
{
    match &item.data {
        syn::Data::Enum(data) => data.variants[i].fields.len(),
        syn::Data::Struct(_) => 0,
        syn::Data::Union(_) => 0,
    }
}

/// Prints the type of field `j` of variant `i` through
/// `ToTokens::to_token_stream` and `to_string`. How the tokens are spaced
/// depends on where the program runs, so nothing is stated of the text.
/// Indexing stops the program where there is no variant `i` or no field `j`,
/// which `requires` rules out.
#[verifier::external_body]
fn read_field_type(item: &syn::DeriveInput, i: usize, j: usize) -> String
    requires
        i < written_variants(*item).len(),
        j < written_variants(*item)[i as int].fields.count(),
{
    match &item.data {
        syn::Data::Enum(data) => match &data.variants[i].fields {
            syn::Fields::Named(fields) => fields.named[j].ty.to_token_stream().to_string(),
            syn::Fields::Unnamed(fields) => fields.unnamed[j].ty.to_token_stream().to_string(),
            syn::Fields::Unit => String::new(),
        },
        syn::Data::Struct(_) => String::new(),
        syn::Data::Union(_) => String::new(),
    }
}

/// A case without the types of its fields.
pub open spec fn case_outline(case: CaseDefinitionView) -> VariantOutline {
    VariantOutline {
        name: case.name,
        fields: match case.fields {
            FieldsView::Unit => FieldsOutline::Unit,
            FieldsView::Named(types) => FieldsOutline::Named(types.len()),
            FieldsView::Positional(types) => FieldsOutline::Unnamed(types.len()),
        },
    }
}

/// A definition without the types of its fields.
pub open spec fn outline(d: DefinitionView) -> Outline {
    Outline {
        name: d.name,
        type_params: d.type_params,
        lifetimes: d.lifetime_params,
        const_params: d.const_params,
        body: match d.body {
            BodyView::Variants(cases) => BodyOutline::Enum(
                Seq::new(cases.len(), |i: int| case_outline(cases[i])),
            ),
            BodyView::Record => BodyOutline::Struct,
            BodyView::Union => BodyOutline::Union,
        },
    }
}

fn read_field_types(item: &syn::DeriveInput, i: usize) -> (types: Vec<String>)
    requires
        i < written_variants(*item).len(),
    ensures
        types.len() == written_variants(*item)[i as int].fields.count(),
{
    let n = count_fields(item, i);
    let mut types: Vec<String> = Vec::new();
    let mut j: usize = 0;
    while j < n
        invariant
            i < written_variants(*item).len(),
            n == written_variants(*item)[i as int].fields.count(),
            j <= n,
            types.len() == j,
        decreases n - j,
    {
        types.push(read_field_type(item, i, j));
        j += 1;
    }
    types
}

fn read_case(item: &syn::DeriveInput, i: usize) -> (case: CaseDefinition)
    requires
        i < written_variants(*item).len(),
    ensures
        case_outline(case@) == written_variants(*item)[i as int],
{
    let fields = match read_fields_kind(item, i) {
        FieldsKind::Unit => CaseFields::Unit,
        FieldsKind::Named => CaseFields::Named(read_field_types(item, i)),
        FieldsKind::Unnamed => CaseFields::Positional(read_field_types(item, i)),
    };
    CaseDefinition { name: read_variant_name(item, i), fields }
}

/// Reads the definition that a syntax tree holds: its name, how many generic
/// parameters of each kind it declares, and for an enum its variants in
/// declaration order, each with the types of its fields as `syn` prints them.
pub fn read_definition(item: &syn::DeriveInput) -> (definition: TypeDefinition)
    ensures
        outline(definition@) == written(*item),
{
    let body = match read_kind(item) {
        ItemKind::Struct => DefinitionBody::Record,
        ItemKind::Union => DefinitionBody::Union,
        ItemKind::Enum => {
            let n = count_variants(item);
            let mut cases: Vec<CaseDefinition> = Vec::new();
            let mut i: usize = 0;
            while i < n
                invariant
                    i <= n,
                    n == written_variants(*item).len(),
                    cases.len() == i,
                    forall|k: int|
                        0 <= k < i ==> case_outline(#[trigger] cases[k]@) == written_variants(
                            *item,
                        )[k],
                decreases n - i,
            {
                cases.push(read_case(item, i));
                i += 1;
            }
            DefinitionBody::Variants(cases)
        },
    };
    let definition = TypeDefinition {
        name: read_name(item),
        type_params: count_type_params(item),
        lifetime_params: count_lifetimes(item),
        const_params: count_const_params(item),
        body,
    };
    assert(outline(definition@).body.variants() =~= written_variants(*item));
    definition
}

} // verus!
