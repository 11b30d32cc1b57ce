use prost_convert::{IntoProto, TryIntoNative};
use prost_convert::ast::{
    Attribute, Data, DeriveInput, Field, Fields, GenericArgument, Lit, Meta, MetaList,
    MetaNameValue, NestedMeta, Path, PathArguments, PathSegment, Type, Variant,
};
use prost_convert::expand::expand_derive_prost_convert;

// When using protobuf enum inside other message, prost transform
// them into i32.

// Prost add explicit discriminant into unit enum and use those
// to generate conversion function from i32;
#[derive(PartialEq)]
pub enum ProtoOperatingSystem {
    Windows,
    Linux,
}

#[derive(PartialEq)]
pub struct ProtoComputer {
    pub os: i32,
}

#[derive(PartialEq, Debug, Clone)]
pub enum OperatingSystem {
    Windows,
    Linux,
}

#[derive(PartialEq, Debug, Clone)]
pub struct Computer {
    pub os: OperatingSystem,
}


#[allow(dead_code)]
fn segment(ident: &str, args: Vec<Type>) -> PathSegment {
    let arguments = if args.is_empty() {
        PathArguments::Empty
    } else {
        PathArguments::AngleBracketed(args.into_iter().map(GenericArgument::Type).collect())
    };
    PathSegment { ident: ident.to_string(), arguments }
}

#[allow(dead_code)]
fn field(name: Option<&str>, ty: Type) -> Field {
    Field { ident: name.map(|text| text.to_string()), ty }
}

#[allow(dead_code)]
fn word(text: &str) -> Path {
    Path { leading_colon: false, segments: vec![text.to_string()] }
}

#[allow(dead_code)]
fn convert_attribute(pairs: &[(&str, &str)]) -> Attribute {
    let nested = pairs
        .iter()
        .map(|(name, value)| {
            NestedMeta::Meta(Meta::NameValue(MetaNameValue {
                path: word(name),
                lit: Lit::Str(value.to_string()),
            }))
        })
        .collect();
    Attribute {
        path: word("prost_convert"),
        meta: Ok(Meta::List(MetaList { path: word("prost_convert"), nested })),
    }
}

fn operating_system_input() -> DeriveInput {
    DeriveInput { attrs: vec![convert_attribute(&[("src", "proto::OperatingSystem")])], ident: "OperatingSystem".to_string(), data: Data::Enum(vec![Variant { ident: "Windows".to_string(), fields: Fields::Unit }, Variant { ident: "Linux".to_string(), fields: Fields::Unit }]) }
}

const OPERATING_SYSTEM_EXPANSION: &str = r#"impl prost_convert::FromNative<OperatingSystem> for proto::OperatingSystem {
    fn from_native(value: OperatingSystem) -> Self {
        use prost_convert::IntoProto;
        match value { OperatingSystem::Windows => Self::Windows, OperatingSystem::Linux => Self::Linux }
    }
}
impl prost_convert::TryFromProto<proto::OperatingSystem> for OperatingSystem {
    fn try_from_proto(value: proto::OperatingSystem) -> std::result::Result<Self, prost_convert::ProstConvertError> {
        use prost_convert::TryIntoNative;
        std::result::Result::Ok(match value { proto::OperatingSystem::Windows => Self::Windows, proto::OperatingSystem::Linux => Self::Linux })
    }
}
impl prost_convert::FromNative<OperatingSystem> for i32 {
    fn from_native(value: OperatingSystem) -> Self {
        match value { OperatingSystem::Windows => 0i32, OperatingSystem::Linux => 1i32, }
    }
}
impl prost_convert::TryFromProto<i32> for OperatingSystem {
    fn try_from_proto(value: i32) -> std::result::Result<Self, prost_convert::ProstConvertError> {
        match value { 0i32 => std::result::Result::Ok(OperatingSystem::Windows), 1i32 => std::result::Result::Ok(OperatingSystem::Linux), _ => std::result::Result::Err(prost_convert::ProstConvertError::MissingRequiredField), }
    }
}
"#;

// What is generated for `OperatingSystem`, with the protobuf types and the imports at this level.
impl prost_convert::FromNative<OperatingSystem> for ProtoOperatingSystem {
    fn from_native(value: OperatingSystem) -> Self {
        match value { OperatingSystem::Windows => Self::Windows, OperatingSystem::Linux => Self::Linux }
    }
}
impl prost_convert::TryFromProto<ProtoOperatingSystem> for OperatingSystem {
    fn try_from_proto(value: ProtoOperatingSystem) -> std::result::Result<Self, prost_convert::ProstConvertError> {
        std::result::Result::Ok(match value { ProtoOperatingSystem::Windows => Self::Windows, ProtoOperatingSystem::Linux => Self::Linux })
    }
}
impl prost_convert::FromNative<OperatingSystem> for i32 {
    fn from_native(value: OperatingSystem) -> Self {
        match value { OperatingSystem::Windows => 0i32, OperatingSystem::Linux => 1i32, }
    }
}
impl prost_convert::TryFromProto<i32> for OperatingSystem {
    fn try_from_proto(value: i32) -> std::result::Result<Self, prost_convert::ProstConvertError> {
        match value { 0i32 => std::result::Result::Ok(OperatingSystem::Windows), 1i32 => std::result::Result::Ok(OperatingSystem::Linux), _ => std::result::Result::Err(prost_convert::ProstConvertError::MissingRequiredField), }
    }
}

fn computer_input() -> DeriveInput {
    DeriveInput { attrs: vec![convert_attribute(&[("src", "proto::Computer")])], ident: "Computer".to_string(), data: Data::Struct(Fields::Named(vec![field(Some("os"), Type::Path(vec![segment("OperatingSystem", vec![])]))])) }
}

const COMPUTER_EXPANSION: &str = r#"impl prost_convert::FromNative<Computer> for proto::Computer {
    fn from_native(value: Computer) -> Self {
        use prost_convert::IntoProto;
        Self { os: value.os.into_proto() }
    }
}
impl prost_convert::TryFromProto<proto::Computer> for Computer {
    fn try_from_proto(value: proto::Computer) -> std::result::Result<Self, prost_convert::ProstConvertError> {
        use prost_convert::TryIntoNative;
        std::result::Result::Ok(Self { os: value.os.try_into_native()? })
    }
}
"#;

// What is generated for `Computer`, with the protobuf types and the imports at this level.
impl prost_convert::FromNative<Computer> for ProtoComputer {
    fn from_native(value: Computer) -> Self {
        Self { os: value.os.into_proto() }
    }
}
impl prost_convert::TryFromProto<ProtoComputer> for Computer {
    fn try_from_proto(value: ProtoComputer) -> std::result::Result<Self, prost_convert::ProstConvertError> {
        std::result::Result::Ok(Self { os: value.os.try_into_native()? })
    }
}

#[test]
fn prost_enum_it_works() {
    assert_eq!(expand_derive_prost_convert(operating_system_input()).unwrap(), OPERATING_SYSTEM_EXPANSION);
    assert_eq!(expand_derive_prost_convert(computer_input()).unwrap(), COMPUTER_EXPANSION);

    let native = Computer {
        os: OperatingSystem::Linux,
    };
    let proto: ProtoComputer = native.clone().into_proto();
    assert_eq!(proto.os, 1);
    assert_eq!(native, proto.try_into_native().unwrap());
}

#[test]
fn unknown_discriminant_is_a_missing_field() {
    let proto = ProtoComputer { os: 7 };
    let native: Result<Computer, prost_convert::ProstConvertError> = proto.try_into_native();
    assert!(matches!(native, Err(prost_convert::ProstConvertError::MissingRequiredField)));
}
