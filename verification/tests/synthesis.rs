use try_as::schema::{
    parse_enum_definition, CaseDefinition, CaseFields, DefinitionBody, Schema, TypeDefinition,
};
use try_as::synth::{
    gen_from_impls, gen_try_as_mut, gen_try_as_ref, gen_try_into_impl, gen_typed_value, synthesize,
    CapabilityKind, GeneratedImplementationSet,
};

fn schema(name: &str, cases: &[(&str, &str)]) -> Schema {
    let cases = cases
        .iter()
        .map(|(case, payload)| CaseDefinition {
            name: case.to_string(),
            fields: CaseFields::Positional(vec![payload.to_string()]),
        })
        .collect();
    let definition = TypeDefinition {
        name: name.to_string(),
        type_params: 0,
        lifetime_params: 0,
        const_params: 0,
        body: DefinitionBody::Variants(cases),
    };
    parse_enum_definition(&definition).unwrap()
}

fn value() -> Schema {
    schema("Value", &[("Number", "i64"), ("Text", "String"), ("Flag", "bool")])
}

#[test]
fn forward_conversion_wraps_in_the_case() {
    let set = gen_from_impls(&value());
    assert_eq!(
        set.blocks,
        vec![
            "impl From<i64> for Value { fn from(a: i64) -> Value { Self::Number(a) } }",
            "impl From<String> for Value { fn from(a: String) -> Value { Self::Text(a) } }",
            "impl From<bool> for Value { fn from(a: bool) -> Value { Self::Flag(a) } }",
        ]
    );
}

#[test]
fn back_conversion_returns_the_container_on_failure() {
    let set = gen_try_into_impl(&value());
    assert_eq!(
        set.blocks,
        vec![
            "impl TryInto<i64> for Value { type Error = Self; fn try_into(self) -> Result<i64, Self::Error> { if let Self::Number(a) = self { Ok(a) } else { Err(self) } } }",
            "impl TryInto<String> for Value { type Error = Self; fn try_into(self) -> Result<String, Self::Error> { if let Self::Text(a) = self { Ok(a) } else { Err(self) } } }",
            "impl TryInto<bool> for Value { type Error = Self; fn try_into(self) -> Result<bool, Self::Error> { if let Self::Flag(a) = self { Ok(a) } else { Err(self) } } }",
        ]
    );
}

#[test]
fn ref_projection_borrows_the_payload() {
    let set = gen_try_as_ref(&value());
    assert_eq!(
        set.blocks,
        vec![
            "impl traits::TryAsRef<i64> for Value { fn try_as_ref(&self) -> Option<&i64> { if let Self::Number(a) = self { Some(a) } else { None } } }",
            "impl traits::TryAsRef<String> for Value { fn try_as_ref(&self) -> Option<&String> { if let Self::Text(a) = self { Some(a) } else { None } } }",
            "impl traits::TryAsRef<bool> for Value { fn try_as_ref(&self) -> Option<&bool> { if let Self::Flag(a) = self { Some(a) } else { None } } }",
        ]
    );
}

#[test]
fn mut_projection_borrows_the_payload_mutably() {
    let set = gen_try_as_mut(&value());
    assert_eq!(
        set.blocks,
        vec![
            "impl traits::TryAsMut<i64> for Value { fn try_as_mut(&mut self) -> Option<&mut i64> { if let Self::Number(a) = self { Some(a) } else { None } } }",
            "impl traits::TryAsMut<String> for Value { fn try_as_mut(&mut self) -> Option<&mut String> { if let Self::Text(a) = self { Some(a) } else { None } } }",
            "impl traits::TryAsMut<bool> for Value { fn try_as_mut(&mut self) -> Option<&mut bool> { if let Self::Flag(a) = self { Some(a) } else { None } } }",
        ]
    );
}

#[test]
fn type_identification_is_one_match_over_all_cases() {
    let set = gen_typed_value(&value());
    assert_eq!(
        set.blocks,
        vec![
            "impl traits::TypedContainer for Value { fn type_id(&self) -> std::any::TypeId { match self { Value::Number(_) => std::any::TypeId::of::<i64>(), Value::Text(_) => std::any::TypeId::of::<String>(), Value::Flag(_) => std::any::TypeId::of::<bool>() } } }",
        ]
    );

    let single = gen_typed_value(&schema("One", &[("Only", "u8")]));
    assert_eq!(
        single.blocks,
        vec![
            "impl traits::TypedContainer for One { fn type_id(&self) -> std::any::TypeId { match self { One::Only(_) => std::any::TypeId::of::<u8>() } } }",
        ]
    );
}

#[test]
fn synthesize_picks_the_capability() {
    let schema = value();
    assert_eq!(synthesize(&schema, CapabilityKind::ForwardConversion), gen_from_impls(&schema));
    assert_eq!(
        synthesize(&schema, CapabilityKind::FallibleBackConversion),
        gen_try_into_impl(&schema)
    );
    assert_eq!(synthesize(&schema, CapabilityKind::FallibleRefProjection), gen_try_as_ref(&schema));
    assert_eq!(synthesize(&schema, CapabilityKind::FallibleMutProjection), gen_try_as_mut(&schema));
    assert_eq!(synthesize(&schema, CapabilityKind::TypeIdentification), gen_typed_value(&schema));
    assert_ne!(gen_try_as_ref(&schema), gen_try_as_mut(&schema));
}

#[test]
fn each_case_gets_one_block_in_declaration_order() {
    let schema = schema("Data", &[("B", "u8"), ("A", "u16"), ("C", "Vec < u8 >")]);
    for kind in [
        CapabilityKind::ForwardConversion,
        CapabilityKind::FallibleBackConversion,
        CapabilityKind::FallibleRefProjection,
        CapabilityKind::FallibleMutProjection,
    ] {
        let set = synthesize(&schema, kind);
        assert_eq!(set.blocks.len(), 3);
        assert!(set.blocks[0].contains("Self::B(a)"));
        assert!(set.blocks[1].contains("Self::A(a)"));
        assert!(set.blocks[2].contains("Self::C(a)"));
        assert!(set.blocks[2].contains("<Vec < u8 >>") || set.blocks[2].contains("Vec < u8 >"));
    }
    assert_eq!(synthesize(&schema, CapabilityKind::TypeIdentification).blocks.len(), 1);
}

#[test]
fn a_schema_without_cases_emits_no_conversion() {
    let never = schema("Never", &[]);
    assert!(gen_from_impls(&never).blocks.is_empty());
    assert!(gen_try_into_impl(&never).blocks.is_empty());
    assert!(gen_try_as_ref(&never).blocks.is_empty());
    assert!(gen_try_as_mut(&never).blocks.is_empty());
    assert_eq!(gen_from_impls(&never).render(), "");
    assert_eq!(
        gen_typed_value(&never).blocks,
        vec![
            "impl traits::TypedContainer for Never { fn type_id(&self) -> std::any::TypeId { match self {  } } }",
        ]
    );
}

#[test]
fn rendering_puts_each_block_on_a_line() {
    let set = GeneratedImplementationSet {
        blocks: vec!["first".to_string(), "second".to_string(), "".to_string()],
    };
    assert_eq!(set.render(), "first\nsecond\n\n");
    assert_eq!(GeneratedImplementationSet { blocks: vec![] }.render(), "");

    let schema = schema("Data", &[("U8", "u8"), ("String", "String")]);
    assert_eq!(
        gen_from_impls(&schema).render(),
        "impl From<u8> for Data { fn from(a: u8) -> Data { Self::U8(a) } }\n\
         impl From<String> for Data { fn from(a: String) -> Data { Self::String(a) } }\n"
    );
}
