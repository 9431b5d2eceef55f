use try_as::pipeline::{
    derive_from, derive_try_as_mut, derive_try_as_ref, derive_try_int, derive_typed_value,
};
use try_as::schema::{GenericKind, ValidationError};
use try_as::traits;
use try_as::traits::{TryAsMut, TryAsRef, TypedContainer, UnwrapInto};

fn parse(source: &str) -> syn::DeriveInput {
    syn::parse_str::<syn::DeriveInput>(source).unwrap()
}

#[test]
fn test_macros() {
    #[derive(Debug)]
    enum Hello {
        Foo(u32),
        Bar(f32),
    }

    let input = parse("#[derive(Debug)] enum Hello { Foo(u32), Bar(f32), }");
    assert_eq!(
        derive_from(&input).unwrap(),
        "impl From<u32> for Hello { fn from(a: u32) -> Hello { Self::Foo(a) } }\n\
         impl From<f32> for Hello { fn from(a: f32) -> Hello { Self::Bar(a) } }\n"
    );
    impl From<u32> for Hello { fn from(a: u32) -> Hello { Self::Foo(a) } }
    impl From<f32> for Hello { fn from(a: f32) -> Hello { Self::Bar(a) } }

    assert_eq!(
        derive_try_int(&input).unwrap(),
        "impl TryInto<u32> for Hello { type Error = Self; fn try_into(self) -> Result<u32, Self::Error> { if let Self::Foo(a) = self { Ok(a) } else { Err(self) } } }\n\
         impl TryInto<f32> for Hello { type Error = Self; fn try_into(self) -> Result<f32, Self::Error> { if let Self::Bar(a) = self { Ok(a) } else { Err(self) } } }\n"
    );
    impl TryInto<u32> for Hello { type Error = Self; fn try_into(self) -> Result<u32, Self::Error> { if let Self::Foo(a) = self { Ok(a) } else { Err(self) } } }
    impl TryInto<f32> for Hello { type Error = Self; fn try_into(self) -> Result<f32, Self::Error> { if let Self::Bar(a) = self { Ok(a) } else { Err(self) } } }

    assert_eq!(
        derive_try_as_ref(&input).unwrap(),
        "impl traits::TryAsRef<u32> for Hello { fn try_as_ref(&self) -> Option<&u32> { if let Self::Foo(a) = self { Some(a) } else { None } } }\n\
         impl traits::TryAsRef<f32> for Hello { fn try_as_ref(&self) -> Option<&f32> { if let Self::Bar(a) = self { Some(a) } else { None } } }\n"
    );
    impl traits::TryAsRef<u32> for Hello { fn try_as_ref(&self) -> Option<&u32> { if let Self::Foo(a) = self { Some(a) } else { None } } }
    impl traits::TryAsRef<f32> for Hello { fn try_as_ref(&self) -> Option<&f32> { if let Self::Bar(a) = self { Some(a) } else { None } } }

    let hello = Hello::from(0);

    let x1: u32 = hello.unwrap_into();
    println!("Hello: {:?}", x1);
    assert_eq!(x1, 0);

    let other = Hello::from(1.5f32);
    let as_u32: Option<&u32> = other.try_as_ref();
    assert!(as_u32.is_none());
    let as_f32: Option<&f32> = other.try_as_ref();
    assert_eq!(as_f32, Some(&1.5f32));
    match other {
        Hello::Bar(x) => assert_eq!(x, 1.5f32),
        Hello::Foo(_) => panic!("the payload went into the wrong case"),
    }
}

#[test]
fn test_derive_from() {
    #[derive(PartialEq, Eq, Debug)]
    enum Data {
        U8(u8),
        String(String),
    }

    let input = parse("#[derive(PartialEq, Eq, Debug)] enum Data { U8(u8), String(String), }");
    assert_eq!(
        derive_from(&input).unwrap(),
        "impl From<u8> for Data { fn from(a: u8) -> Data { Self::U8(a) } }\n\
         impl From<String> for Data { fn from(a: String) -> Data { Self::String(a) } }\n"
    );
    impl From<u8> for Data { fn from(a: u8) -> Data { Self::U8(a) } }
    impl From<String> for Data { fn from(a: String) -> Data { Self::String(a) } }

    let num = Data::from(2);
    let num_2: Data = 2.into();
    assert_eq!(num, Data::U8(2));
    assert_eq!(num_2, Data::U8(2));

    let text = Data::from("two".to_owned());
    assert_eq!(text, Data::String("two".to_owned()));
}

#[test]
fn test_try_into() {
    #[derive(Clone, Debug, PartialEq, Eq)]
    enum Data {
        U8(u8),
        String(String),
    }

    let input = parse("#[derive(Clone, Debug, PartialEq, Eq)] enum Data { U8(u8), String(String), }");
    assert_eq!(
        derive_try_int(&input).unwrap(),
        "impl TryInto<u8> for Data { type Error = Self; fn try_into(self) -> Result<u8, Self::Error> { if let Self::U8(a) = self { Ok(a) } else { Err(self) } } }\n\
         impl TryInto<String> for Data { type Error = Self; fn try_into(self) -> Result<String, Self::Error> { if let Self::String(a) = self { Ok(a) } else { Err(self) } } }\n"
    );
    impl TryInto<u8> for Data { type Error = Self; fn try_into(self) -> Result<u8, Self::Error> { if let Self::U8(a) = self { Ok(a) } else { Err(self) } } }
    impl TryInto<String> for Data { type Error = Self; fn try_into(self) -> Result<String, Self::Error> { if let Self::String(a) = self { Ok(a) } else { Err(self) } } }

    let num = Data::U8(22);
    let u8: Result<u8, Data> = num.clone().try_into();
    let str: Result<String, Data> = num.clone().try_into();
    assert!(u8.is_ok());
    assert!(str.is_err());
    assert_eq!(str.unwrap_err(), num);
    assert_eq!(u8, Ok(22));
}

#[test]
fn test_try_as_ref() {
    enum Data {
        U8(u8),
        String(String),
    }

    let input = parse("enum Data { U8(u8), String(String), }");
    assert_eq!(
        derive_try_as_ref(&input).unwrap(),
        "impl traits::TryAsRef<u8> for Data { fn try_as_ref(&self) -> Option<&u8> { if let Self::U8(a) = self { Some(a) } else { None } } }\n\
         impl traits::TryAsRef<String> for Data { fn try_as_ref(&self) -> Option<&String> { if let Self::String(a) = self { Some(a) } else { None } } }\n"
    );
    impl traits::TryAsRef<u8> for Data { fn try_as_ref(&self) -> Option<&u8> { if let Self::U8(a) = self { Some(a) } else { None } } }
    impl traits::TryAsRef<String> for Data { fn try_as_ref(&self) -> Option<&String> { if let Self::String(a) = self { Some(a) } else { None } } }

    let num = Data::U8(2);

    let u8: Option<&u8> = num.try_as_ref();
    assert!(u8.is_some());
    assert!(*u8.unwrap() == 2);

    let str: Option<&String> = num.try_as_ref();
    assert!(str.is_none());

    let text = Data::String("two".to_owned());
    let str: Option<&String> = text.try_as_ref();
    assert_eq!(str.map(|s| s.as_str()), Some("two"));
}

#[test]
fn test_try_as_mut() {
    enum Data {
        U8(u8),
        String(String),
    }

    let input = parse("enum Data { U8(u8), String(String), }");
    assert_eq!(
        derive_try_as_mut(&input).unwrap(),
        "impl traits::TryAsMut<u8> for Data { fn try_as_mut(&mut self) -> Option<&mut u8> { if let Self::U8(a) = self { Some(a) } else { None } } }\n\
         impl traits::TryAsMut<String> for Data { fn try_as_mut(&mut self) -> Option<&mut String> { if let Self::String(a) = self { Some(a) } else { None } } }\n"
    );
    impl traits::TryAsMut<u8> for Data { fn try_as_mut(&mut self) -> Option<&mut u8> { if let Self::U8(a) = self { Some(a) } else { None } } }
    impl traits::TryAsMut<String> for Data { fn try_as_mut(&mut self) -> Option<&mut String> { if let Self::String(a) = self { Some(a) } else { None } } }

    let mut num = Data::U8(2);

    let u8: Option<&mut u8> = num.try_as_mut();
    assert!(u8.is_some());
    assert!(*u8.unwrap() == 2);

    let str: Option<&mut String> = num.try_as_mut();
    assert!(str.is_none());

    let payload: &mut u8 = num.try_as_mut().unwrap();
    *payload = 4;
    match num {
        Data::U8(x) => assert_eq!(x, 4),
        Data::String(_) => panic!("the case changed"),
    }
}

#[test]
fn typed_value_of_the_documented_enum() {
    enum Value {
        Number(i64),
        String(String),
        Bool(bool),
    }

    let input = parse("enum Value { Number(i64), String(String), Bool(bool) }");
    assert_eq!(
        derive_typed_value(&input).unwrap(),
        "impl traits::TypedContainer for Value { fn type_id(&self) -> std::any::TypeId { match self { Value::Number(_) => std::any::TypeId::of::<i64>(), Value::String(_) => std::any::TypeId::of::<String>(), Value::Bool(_) => std::any::TypeId::of::<bool>() } } }\n"
    );
    impl traits::TypedContainer for Value { fn type_id(&self) -> std::any::TypeId { match self { Value::Number(_) => std::any::TypeId::of::<i64>(), Value::String(_) => std::any::TypeId::of::<String>(), Value::Bool(_) => std::any::TypeId::of::<bool>() } } }

    let x = Value::Number(0);
    let boolean = Value::Bool(false);
    let text = Value::String("x".to_owned());
    assert!(x.holds::<i64>());
    assert!(!x.holds::<bool>());
    assert!(!x.holds::<String>());
    assert!(!boolean.holds::<i64>());
    assert!(boolean.holds::<bool>());
    assert!(text.holds::<String>());
    assert!(std::any::TypeId::of::<bool>() == boolean.type_id());
    assert!(std::any::TypeId::of::<i64>() != boolean.type_id());
}

#[test]
fn a_failed_check_emits_nothing() {
    let generic = parse("enum Wrapper<T> { One(T), Two(u8) }");
    let expected = Err(ValidationError::UnsupportedGenerics { kind: GenericKind::Type });
    assert_eq!(derive_from(&generic), expected);
    assert_eq!(derive_try_int(&generic), expected);
    assert_eq!(derive_try_as_ref(&generic), expected);
    assert_eq!(derive_try_as_mut(&generic), expected);
    assert_eq!(derive_typed_value(&generic), expected);

    let record = parse("struct Point { x: i32, y: i32 }");
    assert_eq!(derive_from(&record), Err(ValidationError::NotAVariantType));

    let shared = parse("enum Data { A(u8), B(String), C(u8) }");
    assert_eq!(derive_try_int(&shared), Err(ValidationError::DuplicatePayloadType { case: 2 }));

    let named = parse("enum Data { A(u8), B { x: u8 } }");
    assert_eq!(derive_try_as_ref(&named), Err(ValidationError::NamedFieldsUnsupported { case: 1 }));
}

#[test]
fn number_text_flag() {
    #[derive(Clone, Debug, PartialEq)]
    enum Value {
        Number(i64),
        Text(String),
        Flag(bool),
    }

    let input = parse("enum Value { Number(i64), Text(String), Flag(bool) }");
    assert_eq!(
        derive_from(&input).unwrap(),
        "impl From<i64> for Value { fn from(a: i64) -> Value { Self::Number(a) } }\n\
         impl From<String> for Value { fn from(a: String) -> Value { Self::Text(a) } }\n\
         impl From<bool> for Value { fn from(a: bool) -> Value { Self::Flag(a) } }\n"
    );
    impl From<i64> for Value { fn from(a: i64) -> Value { Self::Number(a) } }
    impl From<String> for Value { fn from(a: String) -> Value { Self::Text(a) } }
    impl From<bool> for Value { fn from(a: bool) -> Value { Self::Flag(a) } }

    assert_eq!(
        derive_try_int(&input).unwrap(),
        "impl TryInto<i64> for Value { type Error = Self; fn try_into(self) -> Result<i64, Self::Error> { if let Self::Number(a) = self { Ok(a) } else { Err(self) } } }\n\
         impl TryInto<String> for Value { type Error = Self; fn try_into(self) -> Result<String, Self::Error> { if let Self::Text(a) = self { Ok(a) } else { Err(self) } } }\n\
         impl TryInto<bool> for Value { type Error = Self; fn try_into(self) -> Result<bool, Self::Error> { if let Self::Flag(a) = self { Ok(a) } else { Err(self) } } }\n"
    );
    impl TryInto<i64> for Value { type Error = Self; fn try_into(self) -> Result<i64, Self::Error> { if let Self::Number(a) = self { Ok(a) } else { Err(self) } } }
    impl TryInto<String> for Value { type Error = Self; fn try_into(self) -> Result<String, Self::Error> { if let Self::Text(a) = self { Ok(a) } else { Err(self) } } }
    impl TryInto<bool> for Value { type Error = Self; fn try_into(self) -> Result<bool, Self::Error> { if let Self::Flag(a) = self { Ok(a) } else { Err(self) } } }

    assert_eq!(
        derive_typed_value(&input).unwrap(),
        "impl traits::TypedContainer for Value { fn type_id(&self) -> std::any::TypeId { match self { Value::Number(_) => std::any::TypeId::of::<i64>(), Value::Text(_) => std::any::TypeId::of::<String>(), Value::Flag(_) => std::any::TypeId::of::<bool>() } } }\n"
    );
    impl traits::TypedContainer for Value { fn type_id(&self) -> std::any::TypeId { match self { Value::Number(_) => std::any::TypeId::of::<i64>(), Value::Text(_) => std::any::TypeId::of::<String>(), Value::Flag(_) => std::any::TypeId::of::<bool>() } } }

    let number = Value::from(7i64);
    assert_eq!(number, Value::Number(7));

    let as_number: Result<i64, Value> = number.clone().try_into();
    assert_eq!(as_number, Ok(7));

    let as_text: Result<String, Value> = number.clone().try_into();
    assert_eq!(as_text, Err(Value::Number(7)));

    assert!(!number.holds::<bool>());
    assert!(number.holds::<i64>());

    let seven: i64 = number.unwrap_into();
    assert_eq!(seven, 7);
}
