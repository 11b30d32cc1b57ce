use prost_convert::{FromNative, IntoProto, ProstConvertError, TryFromProto, TryIntoNative};

#[test]
fn try_from_proto_scalar() {
    let a = <i32>::default();
    let b = <i32>::try_from_proto(a.clone()).unwrap();
    assert_eq!(a, b);
    let a = <i64>::default();
    let b = <i64>::try_from_proto(a.clone()).unwrap();
    assert_eq!(a, b);
    let a = <u32>::default();
    let b = <u32>::try_from_proto(a.clone()).unwrap();
    assert_eq!(a, b);
    let a = <u64>::default();
    let b = <u64>::try_from_proto(a.clone()).unwrap();
    assert_eq!(a, b);
    let a = <bool>::default();
    let b = <bool>::try_from_proto(a.clone()).unwrap();
    assert_eq!(a, b);
    let a = <String>::default();
    let b = <String>::try_from_proto(a.clone()).unwrap();
    assert_eq!(a, b);
    let a = <Vec<u8>>::default();
    let b = <Vec<u8>>::try_from_proto(a.clone()).unwrap();
    assert_eq!(a, b);
}

#[test]
fn try_into_native_scalar() {
    let a = <i32>::default();
    let b: i32 = a.clone().try_into_native().unwrap();
    assert_eq!(a, b);
    let a = <i64>::default();
    let b: i64 = a.clone().try_into_native().unwrap();
    assert_eq!(a, b);
    let a = <u32>::default();
    let b: u32 = a.clone().try_into_native().unwrap();
    assert_eq!(a, b);
    let a = <u64>::default();
    let b: u64 = a.clone().try_into_native().unwrap();
    assert_eq!(a, b);
    let a = <bool>::default();
    let b: bool = a.clone().try_into_native().unwrap();
    assert_eq!(a, b);
    let a = <String>::default();
    let b: String = a.clone().try_into_native().unwrap();
    assert_eq!(a, b);
    let a = <Vec<u8>>::default();
    let b: Vec<u8> = a.clone().try_into_native().unwrap();
    assert_eq!(a, b);
}

#[test]
fn try_from_proto_option() {
    let a = Some(<i32>::default());
    let b = <i32>::try_from_proto(a.clone()).unwrap();
    assert_eq!(a.unwrap(), b);

    let a: Option<i32> = None;
    let b = <i32>::try_from_proto(a.clone());
    assert!(matches!(b.err().unwrap(), ProstConvertError::MissingRequiredField));
    let a = Some(<i64>::default());
    let b = <i64>::try_from_proto(a.clone()).unwrap();
    assert_eq!(a.unwrap(), b);

    let a: Option<i64> = None;
    let b = <i64>::try_from_proto(a.clone());
    assert!(matches!(b.err().unwrap(), ProstConvertError::MissingRequiredField));
    let a = Some(<u32>::default());
    let b = <u32>::try_from_proto(a.clone()).unwrap();
    assert_eq!(a.unwrap(), b);

    let a: Option<u32> = None;
    let b = <u32>::try_from_proto(a.clone());
    assert!(matches!(b.err().unwrap(), ProstConvertError::MissingRequiredField));
    let a = Some(<u64>::default());
    let b = <u64>::try_from_proto(a.clone()).unwrap();
    assert_eq!(a.unwrap(), b);

    let a: Option<u64> = None;
    let b = <u64>::try_from_proto(a.clone());
    assert!(matches!(b.err().unwrap(), ProstConvertError::MissingRequiredField));
    let a = Some(<bool>::default());
    let b = <bool>::try_from_proto(a.clone()).unwrap();
    assert_eq!(a.unwrap(), b);

    let a: Option<bool> = None;
    let b = <bool>::try_from_proto(a.clone());
    assert!(matches!(b.err().unwrap(), ProstConvertError::MissingRequiredField));
    let a = Some(<String>::default());
    let b = <String>::try_from_proto(a.clone()).unwrap();
    assert_eq!(a.unwrap(), b);

    let a: Option<String> = None;
    let b = <String>::try_from_proto(a.clone());
    assert!(matches!(b.err().unwrap(), ProstConvertError::MissingRequiredField));
    let a = Some(<Vec<u8>>::default());
    let b = <Vec<u8>>::try_from_proto(a.clone()).unwrap();
    assert_eq!(a.unwrap(), b);

    let a: Option<Vec<u8>> = None;
    let b = <Vec<u8>>::try_from_proto(a.clone());
    assert!(matches!(b.err().unwrap(), ProstConvertError::MissingRequiredField));
}

#[test]
fn try_into_native_option() {
    let a = Some(<i32>::default());
    let b: i32 = a.clone().try_into_native().unwrap();
    assert_eq!(a.unwrap(), b);

    let a: Option<i32> = None;
    let b: Result<i32, _> = a.clone().try_into_native();
    assert!(matches!(b.err().unwrap(), ProstConvertError::MissingRequiredField));
    let a = Some(<i64>::default());
    let b: i64 = a.clone().try_into_native().unwrap();
    assert_eq!(a.unwrap(), b);

    let a: Option<i64> = None;
    let b: Result<i64, _> = a.clone().try_into_native();
    assert!(matches!(b.err().unwrap(), ProstConvertError::MissingRequiredField));
    let a = Some(<u32>::default());
    let b: u32 = a.clone().try_into_native().unwrap();
    assert_eq!(a.unwrap(), b);

    let a: Option<u32> = None;
    let b: Result<u32, _> = a.clone().try_into_native();
    assert!(matches!(b.err().unwrap(), ProstConvertError::MissingRequiredField));
    let a = Some(<u64>::default());
    let b: u64 = a.clone().try_into_native().unwrap();
    assert_eq!(a.unwrap(), b);

    let a: Option<u64> = None;
    let b: Result<u64, _> = a.clone().try_into_native();
    assert!(matches!(b.err().unwrap(), ProstConvertError::MissingRequiredField));
    let a = Some(<bool>::default());
    let b: bool = a.clone().try_into_native().unwrap();
    assert_eq!(a.unwrap(), b);

    let a: Option<bool> = None;
    let b: Result<bool, _> = a.clone().try_into_native();
    assert!(matches!(b.err().unwrap(), ProstConvertError::MissingRequiredField));
    let a = Some(<String>::default());
    let b: String = a.clone().try_into_native().unwrap();
    assert_eq!(a.unwrap(), b);

    let a: Option<String> = None;
    let b: Result<String, _> = a.clone().try_into_native();
    assert!(matches!(b.err().unwrap(), ProstConvertError::MissingRequiredField));
    let a = Some(<Vec<u8>>::default());
    let b: Vec<u8> = a.clone().try_into_native().unwrap();
    assert_eq!(a.unwrap(), b);

    let a: Option<Vec<u8>> = None;
    let b: Result<Vec<u8>, _> = a.clone().try_into_native();
    assert!(matches!(b.err().unwrap(), ProstConvertError::MissingRequiredField));
}

#[derive(PartialEq)]
pub struct ProtoSimpleMessage {
    pub name: Option<String>,
}

#[derive(PartialEq, Debug, Clone)]
pub struct SimpleMessage {
    name: String,
}

// what the generator writes:

impl TryFromProto<ProtoSimpleMessage> for SimpleMessage {
    fn try_from_proto(value: ProtoSimpleMessage) -> Result<Self, ProstConvertError> {
        Ok(Self {
            name: value.name.try_into_native()?,
        })
    }
}

impl From<SimpleMessage> for ProtoSimpleMessage {
    fn from(value: SimpleMessage) -> Self {
        Self {
            name: value.name.into(), // tranform it into an option
        }
    }
}

#[test]
fn one_level_nested() {
    let native = SimpleMessage {
        name: String::from("foo"),
    };
    let proto: ProtoSimpleMessage = native.clone().into();

    assert_eq!(native, proto.try_into_native().unwrap());
}

// All protobuf generated struct are pub and their fields also.
#[derive(PartialEq)]
pub struct ProtoNestedMessage {
    pub name: String,
}

#[derive(PartialEq)]
pub struct ProtoMessage {
    pub id: u64,
    pub inner: Option<ProtoNestedMessage>,
}

#[derive(PartialEq)]
pub struct ProtoTopLevelMessage {
    pub inner: ProtoMessage,
}

#[derive(PartialEq, Debug, Clone)]
pub struct NestedMessage {
    pub name: String,
}

#[derive(PartialEq, Debug, Clone)]
pub struct Message {
    pub id: u64,
    pub inner: NestedMessage,
}

#[derive(PartialEq, Debug, Clone)]
pub struct TopLevelMessage {
    pub inner: Message,
}

impl TryFromProto<ProtoMessage> for Message {
    fn try_from_proto(value: ProtoMessage) -> Result<Self, ProstConvertError> {
        Ok(Self {
            id: value.id.try_into_native()?,
            inner: value.inner.try_into_native()?,
        })
    }
}

impl TryFromProto<ProtoNestedMessage> for NestedMessage {
    fn try_from_proto(value: ProtoNestedMessage) -> Result<Self, ProstConvertError> {
        Ok(Self {
            name: value.name.try_into_native()?,
        })
    }
}

#[test]
fn try_from_proto_nested() {
    let proto = ProtoMessage {
        id: 1,
        inner: Some(ProtoNestedMessage {
            name: "foo".to_string(),
        }),
    };
    let native = Message::try_from_proto(proto).unwrap();
    assert_eq!(native.id, 1);
    assert_eq!(native.inner.name, "foo");
}

impl FromNative<Message> for ProtoMessage {
    fn from_native(value: Message) -> Self {
        Self {
            id: value.id.into_proto(),
            inner: value.inner.into_proto(),
        }
    }
}

impl FromNative<NestedMessage> for ProtoNestedMessage {
    fn from_native(value: NestedMessage) -> Self {
        Self {
            name: value.name.into_proto(),
        }
    }
}

#[test]
fn from_native_nested() {
    let native = Message {
        id: 1,
        inner: NestedMessage {
            name: "foo".to_string(),
        },
    };
    let proto = ProtoMessage::from_native(native);
    assert_eq!(proto.id, 1);
    assert!(proto.inner == Some(ProtoNestedMessage { name: "foo".to_string() }));
}

#[test]
fn two_level_nested() {
    let native = Message {
        id: 1,
        inner: NestedMessage {
            name: "foo".to_string(),
        },
    };
    let proto: ProtoMessage = native.clone().into_proto();

    assert_eq!(native, proto.try_into_native().unwrap());
}

impl TryFromProto<ProtoTopLevelMessage> for TopLevelMessage {
    fn try_from_proto(value: ProtoTopLevelMessage) -> Result<Self, ProstConvertError> {
        Ok(Self {
            inner: value.inner.try_into_native()?,
        })
    }
}

impl FromNative<TopLevelMessage> for ProtoTopLevelMessage {
    fn from_native(value: TopLevelMessage) -> Self {
        Self {
            inner: value.inner.into_proto(),
        }
    }
}

#[test]
fn three_level_nested() {
    let native = TopLevelMessage {
        inner: Message {
            id: 1,
            inner: NestedMessage {
                name: "foo".to_string(),
            },
        },
    };
    let proto: ProtoTopLevelMessage = native.clone().into_proto();

    assert_eq!(native, proto.try_into_native().unwrap());
}

#[derive(PartialEq, Debug, Clone)]
pub struct ProtoOptionalMessage {
    pub field: Option<String>,
}

#[derive(Debug, Clone, PartialEq)]
pub struct OptionalMessage {
    // If this field is optional, it must be optional in th proto.
    field: Option<String>,
}

impl TryFromProto<ProtoOptionalMessage> for OptionalMessage {
    // changed from classic derive
    fn try_from_proto(value: ProtoOptionalMessage) -> Result<Self, ProstConvertError> {
        Ok(Self {
            field: value
                .field
                .map(|field| field.try_into_native())
                .transpose()?,
        })
    }
}

impl FromNative<OptionalMessage> for ProtoOptionalMessage {
    // changed from classic derive
    fn from_native(value: OptionalMessage) -> Self {
        Self {
            field: value.field.map(|field| field.into_proto()),
        }
    }
}

#[test]
fn keep_optional_field() {
    let native = OptionalMessage {
        field: Some(String::from("foo")),
    };

    let proto: ProtoOptionalMessage = native.clone().into_proto();

    assert_eq!(native, proto.try_into_native().unwrap());
}

#[derive(PartialEq, Debug, Clone)]
pub struct ProtoHolder {
    pub field: Option<ProtoNested>,
}

#[derive(PartialEq, Debug, Clone)]
pub struct ProtoNested {
    pub id: i32,
}

#[derive(Debug, Clone, PartialEq)]
pub struct Holder {
    field: Option<Nested>,
}

#[derive(Debug, Clone, PartialEq)]
pub struct Nested {
    pub id: i32,
}

impl TryFromProto<ProtoHolder> for Holder {
    // changed from classic derive
    fn try_from_proto(value: ProtoHolder) -> Result<Self, ProstConvertError> {
        Ok(Self {
            field: value
                .field
                .map(|field| field.try_into_native())
                .transpose()?,
        })
    }
}

impl FromNative<Holder> for ProtoHolder {
    // changed from classic derive
    fn from_native(value: Holder) -> Self {
        Self {
            field: value.field.map(|field| field.into_proto()),
        }
    }
}

impl TryFromProto<ProtoNested> for Nested {
    fn try_from_proto(value: ProtoNested) -> Result<Self, ProstConvertError> {
        Ok(Self {
            id: value.id.try_into_native()?,
        })
    }
}

impl FromNative<Nested> for ProtoNested {
    fn from_native(value: Nested) -> Self {
        Self {
            id: value.id.into_proto(),
        }
    }
}

#[test]
fn keep_optional_user_defined_field() {
    let native = Holder {
        field: Some(Nested { id: 2 }),
    };
    let proto: ProtoHolder = native.clone().into_proto();
    assert_eq!(native, proto.try_into_native().unwrap());
}

#[test]
fn narrow_integers_convert_within_their_range() {
    assert_eq!(u16::try_from_proto(65535u32).unwrap(), 65535u16);
    assert!(matches!(u16::try_from_proto(65536u32), Err(ProstConvertError::TryFromIntError(_))));
    assert_eq!(u8::try_from_proto(255u32).unwrap(), 255u8);
    assert!(matches!(u8::try_from_proto(256u32), Err(ProstConvertError::TryFromIntError(_))));
    assert_eq!(i16::try_from_proto(-32768i32).unwrap(), -32768i16);
    assert!(matches!(i16::try_from_proto(-32769i32), Err(ProstConvertError::TryFromIntError(_))));
    assert!(matches!(i16::try_from_proto(32768i32), Err(ProstConvertError::TryFromIntError(_))));
    assert_eq!(i8::try_from_proto(127i32).unwrap(), 127i8);
    assert!(matches!(i8::try_from_proto(128i32), Err(ProstConvertError::TryFromIntError(_))));
    assert!(matches!(i8::try_from_proto(-129i32), Err(ProstConvertError::TryFromIntError(_))));

    assert_eq!(u32::from_native(65535u16), 65535u32);
    assert_eq!(u32::from_native(255u8), 255u32);
    assert_eq!(i32::from_native(-32768i16), -32768i32);
    assert_eq!(i32::from_native(-128i8), -128i32);
}

#[test]
fn unit_converts_to_unit() {
    <()>::try_from_proto(()).unwrap();
    let wire: () = ().into_proto();
    assert_eq!(wire, ());
}

#[test]
fn paths_are_carried_as_text() {
    let native = std::path::PathBuf::from("/tmp/some file.txt");
    let wire: String = native.clone().into_proto();
    assert_eq!(wire, "/tmp/some file.txt");
    let back: std::path::PathBuf = wire.try_into_native().unwrap();
    assert_eq!(back, native);
}

#[test]
fn identifiers_are_carried_as_text() {
    let native = uuid::Uuid::from_u128(0x0123456789abcdef0123456789abcdef);
    let wire: String = native.into_proto();
    assert_eq!(wire, "01234567-89ab-cdef-0123-456789abcdef");
    let back: uuid::Uuid = wire.try_into_native().unwrap();
    assert_eq!(back, native);

    let simple: uuid::Uuid = String::from("0123456789ABCDEF0123456789ABCDEF").try_into_native().unwrap();
    assert_eq!(simple, native);

    let refused: Result<uuid::Uuid, ProstConvertError> = String::from("0123").try_into_native();
    assert!(matches!(refused, Err(ProstConvertError::UuidEroor(_))));
}

#[test]
fn outside_errors_become_conversion_errors() {
    let refused = u8::try_from(300u32).unwrap_err();
    assert!(matches!(ProstConvertError::from(refused), ProstConvertError::TryFromIntError(_)));

    let refused = uuid::Uuid::parse_str("nothing").unwrap_err();
    assert!(matches!(ProstConvertError::from(refused), ProstConvertError::UuidEroor(_)));

    let refused = anyhow::Error::msg("no such colour");
    let converted: ProstConvertError = refused.into();
    match converted {
        ProstConvertError::TypeParseError(inner) => {
            assert_eq!(format!("{}", inner), "no such colour")
        }
        _ => panic!("the parse failure was not carried"),
    }
}

fn parse_colour(text: &str) -> Result<u8, ProstConvertError> {
    let colour: u8 = text.parse::<u8>().map_err(anyhow::Error::new)?;
    Ok(colour)
}

#[test]
fn question_mark_carries_a_users_parse_failure() {
    assert_eq!(parse_colour("7").unwrap(), 7);
    assert!(matches!(parse_colour("red"), Err(ProstConvertError::TypeParseError(_))));
}
