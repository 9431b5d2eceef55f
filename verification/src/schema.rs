//! Definitions as written, the schema drawn from them, and the checks in
//! between.
//!
//! A [`TypeDefinition`] is what a user wrote: it may be any struct, union or
//! enum. A [`Schema`] is what the emission works from: the name of an enum and
//! its cases, each with exactly one payload, no two payloads of one type.
//! [`parse_enum_definition`] leads from one to the other or says which check
//! failed first.

use vstd::prelude::*;

verus! {

/// The fields of one case; each field is given by its type as written.
#[derive(Clone, Debug, PartialEq, Eq)]
pub enum CaseFields {
    /// No field list: `Name`.
    Unit,
    /// Named fields in braces: `Name { a: A, b: B }`.
    Named(Vec<String>),
    /// Positional fields in parentheses: `Name(A, B)`.
    Positional(Vec<String>),
}

/// One case of a definition as written.
#[derive(Clone, Debug, PartialEq, Eq)]
pub struct CaseDefinition {
    pub name: String,
    pub fields: CaseFields,
}

/// What a definition declares after its name and parameters.
#[derive(Clone, Debug, PartialEq, Eq)]
pub enum DefinitionBody {
    /// An enum with its cases in declaration order.
    Variants(Vec<CaseDefinition>),
    /// A struct.
    Record,
    /// An untagged union.
    Union,
}

/// A type definition as written, before any check.
#[derive(Clone, Debug, PartialEq, Eq)]
pub struct TypeDefinition {
    pub name: String,
    pub type_params: usize,
    pub lifetime_params: usize,
    pub const_params: usize,
    pub body: DefinitionBody,
}

/// What [`CaseFields`] holds.
pub enum FieldsView {
    Unit,
    Named(Seq<Seq<char>>),
    Positional(Seq<Seq<char>>),
}

/// What a [`CaseDefinition`] holds.
pub struct CaseDefinitionView {
    pub name: Seq<char>,
    pub fields: FieldsView,
}

/// What a [`DefinitionBody`] holds.
pub enum BodyView {
    Variants(Seq<CaseDefinitionView>),
    Record,
    Union,
}

/// What a [`TypeDefinition`] holds.
pub struct DefinitionView {
    pub name: Seq<char>,
    pub type_params: nat,
    pub lifetime_params: nat,
    pub const_params: nat,
    pub body: BodyView,
}

/// The texts that a sequence of strings holds.
pub open spec fn texts(v: Seq<String>) -> Seq<Seq<char>> {
    Seq::new(v.len(), |i: int| v[i]@)
}

impl View for CaseFields {
    type V = FieldsView;

    open spec fn view(&self) -> FieldsView {
        match self {
            CaseFields::Unit => FieldsView::Unit,
            CaseFields::Named(types) => FieldsView::Named(texts(types@)),
            CaseFields::Positional(types) => FieldsView::Positional(texts(types@)),
        }
    }
}

impl View for CaseDefinition {
    type V = CaseDefinitionView;

    open spec fn view(&self) -> CaseDefinitionView {
        CaseDefinitionView { name: self.name@, fields: self.fields@ }
    }
}

impl View for DefinitionBody {
    type V = BodyView;

    open spec fn view(&self) -> BodyView {
        match self {
            DefinitionBody::Variants(cases) => BodyView::Variants(
                Seq::new(cases@.len(), |i: int| cases@[i]@),
            ),
            DefinitionBody::Record => BodyView::Record,
            DefinitionBody::Union => BodyView::Union,
        }
    }
}

impl View for TypeDefinition {
    type V = DefinitionView;

    open spec fn view(&self) -> DefinitionView {
        DefinitionView {
            name: self.name@,
            type_params: self.type_params as nat,
            lifetime_params: self.lifetime_params as nat,
            const_params: self.const_params as nat,
            body: self.body@,
        }
    }
}

/// The kinds of generic parameter that a definition can declare.
#[derive(Clone, Copy, Debug, PartialEq, Eq, Structural)]
pub enum GenericKind {
    Type,
    Lifetime,
    Const,
}

/// Why a definition cannot be turned into a schema. Where a case is at fault,
/// `case` is its position in declaration order.
#[derive(Clone, Copy, Debug, PartialEq, Eq, Structural)]
pub enum ValidationError {
    /// The definition declares type, lifetime or const parameters.
    UnsupportedGenerics { kind: GenericKind },
    /// The definition is not an enum.
    NotAVariantType,
    /// The case carries no field: `Name` or `Name()`.
    MissingPayload { case: usize },
    /// The case is written with named fields: `Name { .. }`.
    NamedFieldsUnsupported { case: usize },
    /// The case carries more than one positional field: `Name(A, B)`.
    TooManyFields { case: usize },
    /// The payload type of the case is that of an earlier case.
    DuplicatePayloadType { case: usize },
}

/// The sentence that tells a user what is wrong.
pub open spec fn message_text(error: ValidationError) -> Seq<char> {
    match error {
        ValidationError::UnsupportedGenerics { kind: GenericKind::Type } =>
            "Type parameters aren't supported."@,
        ValidationError::UnsupportedGenerics { kind: GenericKind::Lifetime } =>
            "Lifetime parameters aren't supported."@,
        ValidationError::UnsupportedGenerics { kind: GenericKind::Const } =>
            "Constant parameters aren't supported."@,
        ValidationError::NotAVariantType => "Can only be derived from enums."@,
        ValidationError::MissingPayload { .. } =>
            "Every variant must have at least one unnamed field."@,
        ValidationError::NamedFieldsUnsupported { .. } => "Can't have variant with named fields."@,
        ValidationError::TooManyFields { .. } => "Each enum variant can have at most one type."@,
        ValidationError::DuplicatePayloadType { .. } =>
            "Each variant argument type must be unique."@,
    }
}

impl ValidationError {
    /// The position of the case at fault, for the errors that are about one.
    pub open spec fn spec_case(self) -> Option<usize> {
        match self {
            ValidationError::UnsupportedGenerics { .. } => None,
            ValidationError::NotAVariantType => None,
            ValidationError::MissingPayload { case } => Some(case),
            ValidationError::NamedFieldsUnsupported { case } => Some(case),
            ValidationError::TooManyFields { case } => Some(case),
            ValidationError::DuplicatePayloadType { case } => Some(case),
        }
    }

    /// The position of the case at fault, for the errors that are about one.
    pub fn case(&self) -> (case: Option<usize>)
        ensures
            case == self.spec_case(),
    {
        match self {
            ValidationError::UnsupportedGenerics { .. } => None,
            ValidationError::NotAVariantType => None,
            ValidationError::MissingPayload { case } => Some(*case),
            ValidationError::NamedFieldsUnsupported { case } => Some(*case),
            ValidationError::TooManyFields { case } => Some(*case),
            ValidationError::DuplicatePayloadType { case } => Some(*case),
        }
    }

    /// The sentence that tells a user what is wrong.
    pub fn message(&self) -> (text: String)
        ensures
            text@ == message_text(*self),
    {
        let text = match self {
            ValidationError::UnsupportedGenerics { kind: GenericKind::Type } =>
                "Type parameters aren't supported.",
            ValidationError::UnsupportedGenerics { kind: GenericKind::Lifetime } =>
                "Lifetime parameters aren't supported.",
            ValidationError::UnsupportedGenerics { kind: GenericKind::Const } =>
                "Constant parameters aren't supported.",
            ValidationError::NotAVariantType => "Can only be derived from enums.",
            ValidationError::MissingPayload { .. } =>
                "Every variant must have at least one unnamed field.",
            ValidationError::NamedFieldsUnsupported { .. } =>
                "Can't have variant with named fields.",
            ValidationError::TooManyFields { .. } => "Each enum variant can have at most one type.",
            ValidationError::DuplicatePayloadType { .. } =>
                "Each variant argument type must be unique.",
        };
        text.to_owned()
    }
}

/// One case of a schema: its name and the type of its payload, as written.
#[derive(Clone, Debug, PartialEq, Eq)]
pub struct Case {
    pub name: String,
    pub payload: String,
}

/// What a [`Case`] holds.
pub struct CaseView {
    pub name: Seq<char>,
    pub payload: Seq<char>,
}

impl View for Case {
    type V = CaseView;

    open spec fn view(&self) -> CaseView {
        CaseView { name: self.name@, payload: self.payload@ }
    }
}

/// What a sequence of cases holds.
pub open spec fn case_views(v: Seq<Case>) -> Seq<CaseView> {
    Seq::new(v.len(), |i: int| v[i]@)
}

/// What a [`Schema`] holds.
pub struct SchemaView {
    pub container_name: Seq<char>,
    pub cases: Seq<CaseView>,
}

impl SchemaView {
    /// No two cases have the same payload type. Two types are the same if
    /// they are written the same.
    pub open spec fn valid(self) -> bool {
        forall|i: int, j: int|
            0 <= i < j < self.cases.len() ==> #[trigger] self.cases[i].payload
                != #[trigger] self.cases[j].payload
    }
}

/// The checked description of an enum: its name and its cases in declaration
/// order, each with one payload, no two payloads of the same type.
#[derive(Debug, PartialEq, Eq)]
pub struct Schema {
    container_name: String,
    cases: Vec<Case>,
}

impl View for Schema {
    type V = SchemaView;

    closed spec fn view(&self) -> SchemaView {
        SchemaView { container_name: self.container_name@, cases: case_views(self.cases@) }
    }
}

impl Schema {
    #[verifier::type_invariant]
    spec fn well_formed(self) -> bool {
        self@.valid()
    }

    /// The name of the enum.
    pub fn container_name(&self) -> (name: &String)
        ensures
            name@ == self@.container_name,
    {
        &self.container_name
    }

    /// The cases in declaration order. No two have the same payload type.
    pub fn cases(&self) -> (cases: &Vec<Case>)
        ensures
            case_views(cases@) == self@.cases,
            self@.valid(),
    {
        proof {
            use_type_invariant(self);
        }
        &self.cases
    }
}

/// The first kind of generic parameter that the definition declares, in the
/// order type, lifetime, const.
pub open spec fn declared_generics(d: DefinitionView) -> Option<GenericKind> {
    if d.type_params > 0 {
        Some(GenericKind::Type)
    } else if d.lifetime_params > 0 {
        Some(GenericKind::Lifetime)
    } else if d.const_params > 0 {
        Some(GenericKind::Const)
    } else {
        None
    }
}

/// The payload type of a case that carries exactly one positional field.
pub open spec fn payload_of(c: CaseDefinitionView) -> Option<Seq<char>> {
    match c.fields {
        FieldsView::Positional(types) => if types.len() == 1 {
            Some(types[0])
        } else {
            None
        },
        _ => None,
    }
}

/// What is wrong with case `k`, if anything: it has no payload, named fields
/// or several fields, or its payload type is that of an earlier case.
pub open spec fn case_fault(cases: Seq<CaseDefinitionView>, k: int) -> Option<ValidationError> {
    match cases[k].fields {
        FieldsView::Unit => Some(ValidationError::MissingPayload { case: k as usize }),
        FieldsView::Named(_) => Some(ValidationError::NamedFieldsUnsupported { case: k as usize }),
        FieldsView::Positional(types) => if types.len() == 0 {
            Some(ValidationError::MissingPayload { case: k as usize })
        } else if types.len() > 1 {
            Some(ValidationError::TooManyFields { case: k as usize })
        } else if exists|j: int| 0 <= j < k && #[trigger] payload_of(cases[j]) == Some(types[0]) {
            Some(ValidationError::DuplicatePayloadType { case: k as usize })
        } else {
            None
        },
    }
}

/// The fault of the first case at fault among those from position `from` on.
pub open spec fn first_fault(cases: Seq<CaseDefinitionView>, from: int) -> Option<ValidationError>
    decreases cases.len() - from,
{
    if from < 0 || from >= cases.len() {
        None
    } else if case_fault(cases, from) is Some {
        case_fault(cases, from)
    } else {
        first_fault(cases, from + 1)
    }
}

/// The cases of the schema of a definition none of whose cases is at fault.
pub open spec fn schema_cases(cases: Seq<CaseDefinitionView>) -> Seq<CaseView> {
    Seq::new(
        cases.len(),
        |i: int| CaseView { name: cases[i].name, payload: payload_of(cases[i]).unwrap() },
    )
}

/// What extraction makes of a definition: the error of the first check that
/// fails, in the order generics, kind of definition, then case by case; or,
/// where none fails, the schema.
pub open spec fn extraction(d: DefinitionView) -> Result<SchemaView, ValidationError> {
    match declared_generics(d) {
        Some(kind) => Err(ValidationError::UnsupportedGenerics { kind }),
        None => match d.body {
            BodyView::Variants(cases) => match first_fault(cases, 0) {
                Some(e) => Err(e),
                None => Ok(SchemaView { container_name: d.name, cases: schema_cases(cases) }),
            },
            _ => Err(ValidationError::NotAVariantType),
        },
    }
}

proof fn lemma_first_fault_skips(cases: Seq<CaseDefinitionView>, from: int, k: int)
    requires
        0 <= from <= k <= cases.len(),
        forall|j: int| from <= j < k ==> case_fault(cases, j) is None,
    ensures
        first_fault(cases, from) == first_fault(cases, k),
    decreases k - from,
{
    if from < k {
        lemma_first_fault_skips(cases, from + 1, k);
    }
}

/// The first fault from `from` on is the fault of the least position at
/// fault; there is none exactly if no case from `from` on is at fault.
pub proof fn lemma_first_fault_is_least(cases: Seq<CaseDefinitionView>, from: int)
    requires
        0 <= from <= cases.len(),
    ensures
        match first_fault(cases, from) {
            Some(e) => exists|k: int|
                from <= k < cases.len() && #[trigger] case_fault(cases, k) == Some(e) && forall|
                    j: int,
                |
                    from <= j < k ==> case_fault(cases, j) is None,
            None => forall|k: int| from <= k < cases.len() ==> case_fault(cases, k) is None,
        },
    decreases cases.len() - from,
{
    if from < cases.len() {
        lemma_first_fault_is_least(cases, from + 1);
        if case_fault(cases, from) is None {
            if let Some(e) = first_fault(cases, from) {
                let k = choose|k: int|
                    from + 1 <= k < cases.len() && #[trigger] case_fault(cases, k) == Some(e)
                        && forall|j: int| from + 1 <= j < k ==> case_fault(cases, j) is None;
                assert(forall|j: int| from <= j < k ==> case_fault(cases, j) is None);
            }
        }
    }
}

/// A schema that extraction gives is valid: it has the definition's name,
/// a case for each case of the definition, and no payload type twice.
pub proof fn law_extraction_is_valid(d: DefinitionView)
    ensures
        extraction(d) matches Ok(schema) ==> {
            &&& schema.valid()
            &&& schema.container_name == d.name
            &&& d.body matches BodyView::Variants(cases)
            &&& schema.cases.len() == cases.len()
        },
{
    if let Ok(schema) = extraction(d) {
        let cases = d.body->Variants_0;
        lemma_first_fault_is_least(cases, 0);
        assert forall|i: int, j: int|
            0 <= i < j < schema.cases.len() implies schema.cases[i].payload
            != schema.cases[j].payload by {
            assert(case_fault(cases, i) is None);
            assert(case_fault(cases, j) is None);
        }
    }
}

/// A definition that declares a generic parameter is rejected for it,
/// whatever else it holds.
pub proof fn law_generics_rejected(d: DefinitionView)
    requires
        d.type_params > 0 || d.lifetime_params > 0 || d.const_params > 0,
    ensures
        extraction(d) matches Err(e) && e is UnsupportedGenerics,
{
}

/// A definition with a case of named fields is rejected; for that case,
/// unless an earlier check fails.
pub proof fn law_named_fields_rejected(d: DefinitionView, k: int)
    requires
        d.body matches BodyView::Variants(cases) && 0 <= k < cases.len()
            && cases[k].fields is Named,
    ensures
        extraction(d) is Err,
        declared_generics(d) is None && (forall|j: int|
            0 <= j < k ==> case_fault(d.body->Variants_0, j) is None) ==> extraction(d) == Err::<
            SchemaView,
            ValidationError,
        >(ValidationError::NamedFieldsUnsupported { case: k as usize }),
{
    let cases = d.body->Variants_0;
    lemma_first_fault_is_least(cases, 0);
    if forall|j: int| 0 <= j < k ==> case_fault(cases, j) is None {
        lemma_first_fault_skips(cases, 0, k);
    }
}

/// A definition with two cases of one payload type is rejected; for the
/// later of the two, unless an earlier check fails.
pub proof fn law_shared_payload_rejected(d: DefinitionView, first: int, k: int)
    requires
        d.body matches BodyView::Variants(cases) && 0 <= first < k < cases.len() && payload_of(
            cases[first],
        ) is Some && payload_of(cases[first]) == payload_of(cases[k]),
    ensures
        extraction(d) is Err,
        declared_generics(d) is None && (forall|j: int|
            0 <= j < k ==> case_fault(d.body->Variants_0, j) is None) ==> extraction(d) == Err::<
            SchemaView,
            ValidationError,
        >(ValidationError::DuplicatePayloadType { case: k as usize }),
{
    let cases = d.body->Variants_0;
    lemma_first_fault_is_least(cases, 0);
    assert(case_fault(cases, k) == Some(
        ValidationError::DuplicatePayloadType { case: k as usize },
    ));
    if forall|j: int| 0 <= j < k ==> case_fault(cases, j) is None {
        lemma_first_fault_skips(cases, 0, k);
    }
}

fn first_generics(definition: &TypeDefinition) -> (r: Option<GenericKind>)
    ensures
        r == declared_generics(definition@),
{
    if definition.type_params > 0 {
        Some(GenericKind::Type)
    } else if definition.lifetime_params > 0 {
        Some(GenericKind::Lifetime)
    } else if definition.const_params > 0 {
        Some(GenericKind::Const)
    } else {
        None
    }
}

fn holds_payload(cases: &Vec<Case>, payload: &String) -> (found: bool)
    ensures
        found == exists|j: int| 0 <= j < cases.len() && #[trigger] cases[j].payload@ == payload@,
{
    let mut j: usize = 0;
    while j < cases.len()
        invariant
            j <= cases.len(),
            forall|i: int| 0 <= i < j ==> #[trigger] cases[i].payload@ != payload@,
        decreases cases.len() - j,
    {
        if cases[j].payload == *payload {
            return true;
        }
        j += 1;
    }
    false
}

/// Checks a definition and draws its schema. The checks run in a fixed order
/// and the first that fails is reported: generic parameters (type, lifetime,
/// const), the kind of definition, then each case in declaration order (no
/// payload, named fields, several fields, a payload type seen before).
pub fn parse_enum_definition(definition: &TypeDefinition) -> (r: Result<Schema, ValidationError>)
    ensures
        match r {
            Ok(schema) => extraction(definition@) == Ok::<SchemaView, ValidationError>(schema@)
                && schema@.valid(),
            Err(e) => extraction(definition@) == Err::<SchemaView, ValidationError>(e),
        },
{
    if let Some(kind) = first_generics(definition) {
        return Err(ValidationError::UnsupportedGenerics { kind });
    }
    let variants = match &definition.body {
        DefinitionBody::Variants(variants) => variants,
        _ => {
            return Err(ValidationError::NotAVariantType);
        },
    };
    let ghost written = definition@.body->Variants_0;
    let mut cases: Vec<Case> = Vec::new();
    let mut k: usize = 0;
    while k < variants.len()
        invariant
            declared_generics(definition@) is None,
            definition@.body == BodyView::Variants(written),
            k <= variants.len(),
            written.len() == variants.len(),
            forall|i: int| 0 <= i < variants.len() ==> written[i] == #[trigger] variants[i]@,
            forall|j: int| 0 <= j < k ==> case_fault(written, j) is None,
            cases.len() == k,
            forall|j: int| 0 <= j < k ==> #[trigger] cases[j]@ == schema_cases(written)[j],
            forall|i: int, j: int|
                0 <= i < j < k ==> #[trigger] cases[i].payload@ != #[trigger] cases[j].payload@,
        decreases variants.len() - k,
    {
        let variant = &variants[k];
        proof {
            lemma_first_fault_skips(written, 0, k as int);
            assert(written[k as int] == variant@);
            assert forall|j: int| 0 <= j < k implies payload_of(written[j]) == Some(
                cases[j].payload@,
            ) by {
                assert(case_fault(written, j) is None);
                assert(cases[j]@ == schema_cases(written)[j]);
            }
        }
        let payload = match &variant.fields {
            CaseFields::Unit => {
                return Err(ValidationError::MissingPayload { case: k });
            },
            CaseFields::Named(_) => {
                return Err(ValidationError::NamedFieldsUnsupported { case: k });
            },
            CaseFields::Positional(types) => {
                if types.len() == 0 {
                    return Err(ValidationError::MissingPayload { case: k });
                }
                if types.len() > 1 {
                    return Err(ValidationError::TooManyFields { case: k });
                }
                let seen = holds_payload(&cases, &types[0]);
                proof {
                    let wanted = Some(types[0]@);
                    if seen {
                        let j = choose|j: int|
                            0 <= j < cases.len() && #[trigger] cases[j].payload@ == types[0]@;
                        assert(payload_of(written[j]) == wanted);
                    }
                }
                if seen {
                    return Err(ValidationError::DuplicatePayloadType { case: k });
                }
                types[0].clone()
            },
        };
        cases.push(Case { name: variant.name.clone(), payload });
        k += 1;
    }
    proof {
        lemma_first_fault_skips(written, 0, k as int);
        assert(case_views(cases@) =~= schema_cases(written));
    }
    Ok(Schema { container_name: definition.name.clone(), cases })
}

} // verus!
