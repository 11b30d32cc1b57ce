use prost_convert::{IntoProto, TryIntoNative};
use prost_convert::ast::{
    Attribute, Data, DeriveInput, Field, Fields, GenericArgument, Lit, Meta, MetaList,
    MetaNameValue, NestedMeta, Path, PathArguments, PathSegment, Type, Variant,
};
use prost_convert::expand::expand_derive_prost_convert;

#[derive(PartialEq)]
pub struct ProtoEventResponse {
    pub event: Option<ProtoEvent>,
}

#[derive(PartialEq)]
pub enum ProtoEvent {
    ModuleExecutionOutput(ProtoOrderOutputWrapper),
    NewImplantRegistration(ProtoImplantRegistration),
}

#[derive(PartialEq)]
pub struct ProtoOrderOutputWrapper {
    pub order_output: Option<ProtoOrderOutput>,
}

#[derive(PartialEq)]
pub enum ProtoOrderOutput {
    Result(String),
    Log(String),
}

#[derive(PartialEq)]
pub struct ProtoImplantRegistration {
    pub id: u32,
}

// Native struct

#[derive(PartialEq, Debug, Clone)]
enum Event {
    /// Order output Event.
    ModuleExecutionOutput(OrderOutput),
    /// New implant registration info.
    NewImplantRegistration(ImplantRegistration),
}

#[derive(PartialEq, Debug, Clone)]
enum OrderOutput {
    Result(String),
    Log(String),
}

#[derive(PartialEq, Debug, Clone)]
struct ImplantRegistration {
    id: u32,
}


#[allow(dead_code)]
fn segment(ident: &str, args: Vec<Type>) -> PathSegment {
    let arguments = if args.is_empty() {
        PathArguments::Empty
    } else {
        PathArguments::AngleBracketed(args.into_iter().map(GenericArgument::Type).collect())
    };
    PathSegment { ident: ident.to_string(), arguments }
}

#[allow(dead_code)]
fn field(name: Option<&str>, ty: Type) -> Field {
    Field { ident: name.map(|text| text.to_string()), ty }
}

#[allow(dead_code)]
fn word(text: &str) -> Path {
    Path { leading_colon: false, segments: vec![text.to_string()] }
}

#[allow(dead_code)]
fn convert_attribute(pairs: &[(&str, &str)]) -> Attribute {
    let nested = pairs
        .iter()
        .map(|(name, value)| {
            NestedMeta::Meta(Meta::NameValue(MetaNameValue {
                path: word(name),
                lit: Lit::Str(value.to_string()),
            }))
        })
        .collect();
    Attribute {
        path: word("prost_convert"),
        meta: Ok(Meta::List(MetaList { path: word("prost_convert"), nested })),
    }
}

fn event_input() -> DeriveInput {
    DeriveInput { attrs: vec![convert_attribute(&[("src", "proto::Event"), ("wrapper", "proto::EventResponse")])], ident: "Event".to_string(), data: Data::Enum(vec![Variant { ident: "ModuleExecutionOutput".to_string(), fields: Fields::Unnamed(vec![field(None, Type::Path(vec![segment("OrderOutput", vec![])]))]) }, Variant { ident: "NewImplantRegistration".to_string(), fields: Fields::Unnamed(vec![field(None, Type::Path(vec![segment("ImplantRegistration", vec![])]))]) }]) }
}

const EVENT_EXPANSION: &str = r#"impl prost_convert::FromNative<Event> for proto::Event {
    fn from_native(value: Event) -> Self {
        use prost_convert::IntoProto;
        match value { Event::ModuleExecutionOutput(__field0) => Self::ModuleExecutionOutput(__field0.into_proto()), Event::NewImplantRegistration(__field0) => Self::NewImplantRegistration(__field0.into_proto()) }
    }
}
impl prost_convert::TryFromProto<proto::Event> for Event {
    fn try_from_proto(value: proto::Event) -> std::result::Result<Self, prost_convert::ProstConvertError> {
        use prost_convert::TryIntoNative;
        std::result::Result::Ok(match value { proto::Event::ModuleExecutionOutput(__field0) => Self::ModuleExecutionOutput(__field0.try_into_native()?), proto::Event::NewImplantRegistration(__field0) => Self::NewImplantRegistration(__field0.try_into_native()?) })
    }
}
impl prost_convert::TryFromProto<proto::EventResponse> for Event {
    fn try_from_proto(value: proto::EventResponse) -> std::result::Result<Self, prost_convert::ProstConvertError> {
        use prost_convert::TryIntoNative;
        value.event.try_into_native()
    }
}
impl prost_convert::FromNative<Event> for proto::EventResponse {
    fn from_native(value: Event) -> Self {
        use prost_convert::IntoProto;
        Self { event: value.into_proto(), }
    }
}
"#;

// What is generated for `Event`, with the protobuf types and the imports at this level.
impl prost_convert::FromNative<Event> for ProtoEvent {
    fn from_native(value: Event) -> Self {
        match value { Event::ModuleExecutionOutput(__field0) => Self::ModuleExecutionOutput(__field0.into_proto()), Event::NewImplantRegistration(__field0) => Self::NewImplantRegistration(__field0.into_proto()) }
    }
}
impl prost_convert::TryFromProto<ProtoEvent> for Event {
    fn try_from_proto(value: ProtoEvent) -> std::result::Result<Self, prost_convert::ProstConvertError> {
        std::result::Result::Ok(match value { ProtoEvent::ModuleExecutionOutput(__field0) => Self::ModuleExecutionOutput(__field0.try_into_native()?), ProtoEvent::NewImplantRegistration(__field0) => Self::NewImplantRegistration(__field0.try_into_native()?) })
    }
}
impl prost_convert::TryFromProto<ProtoEventResponse> for Event {
    fn try_from_proto(value: ProtoEventResponse) -> std::result::Result<Self, prost_convert::ProstConvertError> {
        value.event.try_into_native()
    }
}
impl prost_convert::FromNative<Event> for ProtoEventResponse {
    fn from_native(value: Event) -> Self {
        Self { event: value.into_proto(), }
    }
}

fn order_output_input() -> DeriveInput {
    DeriveInput { attrs: vec![convert_attribute(&[("src", "proto::OrderOutput"), ("wrapper", "proto::OrderOutputWrapper")])], ident: "OrderOutput".to_string(), data: Data::Enum(vec![Variant { ident: "Result".to_string(), fields: Fields::Unnamed(vec![field(None, Type::Path(vec![segment("String", vec![])]))]) }, Variant { ident: "Log".to_string(), fields: Fields::Unnamed(vec![field(None, Type::Path(vec![segment("String", vec![])]))]) }]) }
}

const ORDER_OUTPUT_EXPANSION: &str = r#"impl prost_convert::FromNative<OrderOutput> for proto::OrderOutput {
    fn from_native(value: OrderOutput) -> Self {
        use prost_convert::IntoProto;
        match value { OrderOutput::Result(__field0) => Self::Result(__field0.into_proto()), OrderOutput::Log(__field0) => Self::Log(__field0.into_proto()) }
    }
}
impl prost_convert::TryFromProto<proto::OrderOutput> for OrderOutput {
    fn try_from_proto(value: proto::OrderOutput) -> std::result::Result<Self, prost_convert::ProstConvertError> {
        use prost_convert::TryIntoNative;
        std::result::Result::Ok(match value { proto::OrderOutput::Result(__field0) => Self::Result(__field0.try_into_native()?), proto::OrderOutput::Log(__field0) => Self::Log(__field0.try_into_native()?) })
    }
}
impl prost_convert::TryFromProto<proto::OrderOutputWrapper> for OrderOutput {
    fn try_from_proto(value: proto::OrderOutputWrapper) -> std::result::Result<Self, prost_convert::ProstConvertError> {
        use prost_convert::TryIntoNative;
        value.order_output.try_into_native()
    }
}
impl prost_convert::FromNative<OrderOutput> for proto::OrderOutputWrapper {
    fn from_native(value: OrderOutput) -> Self {
        use prost_convert::IntoProto;
        Self { order_output: value.into_proto(), }
    }
}
"#;

// What is generated for `OrderOutput`, with the protobuf types and the imports at this level.
impl prost_convert::FromNative<OrderOutput> for ProtoOrderOutput {
    fn from_native(value: OrderOutput) -> Self {
        match value { OrderOutput::Result(__field0) => Self::Result(__field0.into_proto()), OrderOutput::Log(__field0) => Self::Log(__field0.into_proto()) }
    }
}
impl prost_convert::TryFromProto<ProtoOrderOutput> for OrderOutput {
    fn try_from_proto(value: ProtoOrderOutput) -> std::result::Result<Self, prost_convert::ProstConvertError> {
        std::result::Result::Ok(match value { ProtoOrderOutput::Result(__field0) => Self::Result(__field0.try_into_native()?), ProtoOrderOutput::Log(__field0) => Self::Log(__field0.try_into_native()?) })
    }
}
impl prost_convert::TryFromProto<ProtoOrderOutputWrapper> for OrderOutput {
    fn try_from_proto(value: ProtoOrderOutputWrapper) -> std::result::Result<Self, prost_convert::ProstConvertError> {
        value.order_output.try_into_native()
    }
}
impl prost_convert::FromNative<OrderOutput> for ProtoOrderOutputWrapper {
    fn from_native(value: OrderOutput) -> Self {
        Self { order_output: value.into_proto(), }
    }
}

fn implant_registration_input() -> DeriveInput {
    DeriveInput { attrs: vec![convert_attribute(&[("src", "proto::ImplantRegistration")])], ident: "ImplantRegistration".to_string(), data: Data::Struct(Fields::Named(vec![field(Some("id"), Type::Path(vec![segment("u32", vec![])]))])) }
}

const IMPLANT_REGISTRATION_EXPANSION: &str = r#"impl prost_convert::FromNative<ImplantRegistration> for proto::ImplantRegistration {
    fn from_native(value: ImplantRegistration) -> Self {
        use prost_convert::IntoProto;
        Self { id: value.id.into_proto() }
    }
}
impl prost_convert::TryFromProto<proto::ImplantRegistration> for ImplantRegistration {
    fn try_from_proto(value: proto::ImplantRegistration) -> std::result::Result<Self, prost_convert::ProstConvertError> {
        use prost_convert::TryIntoNative;
        std::result::Result::Ok(Self { id: value.id.try_into_native()? })
    }
}
"#;

// What is generated for `ImplantRegistration`, with the protobuf types and the imports at this level.
impl prost_convert::FromNative<ImplantRegistration> for ProtoImplantRegistration {
    fn from_native(value: ImplantRegistration) -> Self {
        Self { id: value.id.into_proto() }
    }
}
impl prost_convert::TryFromProto<ProtoImplantRegistration> for ImplantRegistration {
    fn try_from_proto(value: ProtoImplantRegistration) -> std::result::Result<Self, prost_convert::ProstConvertError> {
        std::result::Result::Ok(Self { id: value.id.try_into_native()? })
    }
}

#[test]
fn nested_enum_new_type_it_works() {
    assert_eq!(expand_derive_prost_convert(event_input()).unwrap(), EVENT_EXPANSION);
    assert_eq!(expand_derive_prost_convert(order_output_input()).unwrap(), ORDER_OUTPUT_EXPANSION);
    assert_eq!(expand_derive_prost_convert(implant_registration_input()).unwrap(), IMPLANT_REGISTRATION_EXPANSION);

    let native = Event::ModuleExecutionOutput(OrderOutput::Log(String::from("Hello")));
    let proto: ProtoEventResponse = native.clone().into_proto();

    assert_eq!(native, proto.try_into_native().unwrap());
}

#[test]
fn empty_wrapper_is_a_missing_field() {
    let proto = ProtoEventResponse { event: None };
    let native: Result<Event, prost_convert::ProstConvertError> = proto.try_into_native();
    assert!(matches!(native, Err(prost_convert::ProstConvertError::MissingRequiredField)));
}
