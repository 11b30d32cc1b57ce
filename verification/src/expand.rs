//! The generator: from the shape of an annotated type to the source text of
//! its conversions.

use crate::ast::{DeriveInput, GenericArgument, Path, PathArguments, PathView, Type};
use crate::container::{
    analysis, field_views, variant_views, Container, ContainerView, Data, DataView, Field,
    FieldView, Style, Variant, VariantView,
};
use crate::error::{DeriveError, Failure};
use crate::text::{
    decimal, join, lemma_texts_push, listed, push_decimal, push_joined, push_listed,
    push_signed_decimal, signed_decimal, snake_case, texts, to_snake_case,
};
use vstd::prelude::*;
use vstd::string::*;

verus! {

/// The type that `ty` wraps, if `ty` is a path whose last segment is
/// `wrapper` with exactly one argument in angle brackets, that argument
/// being a type. The match is on the written name only: an alias of the
/// wrapper is not seen through.
pub open spec fn inner_type(wrapper: Seq<char>, ty: Type) -> Option<Type> {
    match ty {
        Type::Path(segments) => {
            if segments@.len() > 0 && segments@.last().ident@ == wrapper {
                match segments@.last().arguments {
                    PathArguments::AngleBracketed(args) => {
                        if args@.len() == 1 {
                            match args@[0] {
                                GenericArgument::Type(inner) => Some(inner),
                                GenericArgument::Other => None,
                            }
                        } else {
                            None
                        }
                    },
                    _ => None,
                }
            } else {
                None
            }
        },
        Type::Other => None,
    }
}

/// If the type wrap another type (i.e. `Option<T>` or `Vec<T>`) return the
/// inner type.
pub fn inner_ty<'a>(wrapper: &str, field: &'a Type) -> (inner: Option<&'a Type>)
    ensures
        match inner {
            Some(found) => inner_type(wrapper@, *field) == Some(*found),
            None => inner_type(wrapper@, *field) is None,
        },
{
    if let Type::Path(segments) = field {
        if segments.len() > 0 {
            let last_segment = &segments[segments.len() - 1];
            if !crate::text::str_equal(last_segment.ident.as_str(), wrapper) {
                return None;
            }
            if let PathArguments::AngleBracketed(args) = &last_segment.arguments {
                // Option must have only one argument.
                if args.len() != 1 {
                    return None;
                }
                if let GenericArgument::Type(inner_ty) = &args[0] {
                    return Some(inner_ty);
                }
            }
        }
    }
    None
}

/// How a named field of a struct is converted.
pub enum FieldRule {
    /// The field's own conversion is applied to the field: on the way back
    /// an empty protobuf slot is a missing required field.
    Delegate,
    /// The field is optional on both sides: the conversion is applied to
    /// what the option holds, and an empty slot stays empty.
    KeepOptional,
}

/// The rule for a field: an option is kept where the field's declared
/// type is written as `Option` of one type.
pub open spec fn field_rule(field: FieldView) -> FieldRule {
    if inner_type("Option"@, field.ty) is Some {
        FieldRule::KeepOptional
    } else {
        FieldRule::Delegate
    }
}

/// A name as it is written out; nothing is written for a missing name.
pub open spec fn name_text(name: Option<Seq<char>>) -> Seq<char> {
    match name {
        Some(text) => text,
        None => Seq::empty(),
    }
}

/// The initialiser of one field in the conversion of a native struct to
/// its protobuf form.
pub open spec fn from_native_field(field: FieldView) -> Seq<char> {
    let name = name_text(field.name);
    match field_rule(field) {
        FieldRule::KeepOptional => name + ": value."@ + name
            + ".map(|field| field.into_proto())"@,
        FieldRule::Delegate => name + ": value."@ + name + ".into_proto()"@,
    }
}

/// The body of the conversion of a native struct to its protobuf form.
pub open spec fn from_native_struct_text(fields: Seq<FieldView>) -> Seq<char> {
    "use prost_convert::IntoProto;\n        Self { "@ + join(
        fields.map_values(|field: FieldView| from_native_field(field)),
        ", "@,
    ) + " }"@
}

/// The initialiser of one field in the conversion of a protobuf struct to
/// its native form.
pub open spec fn try_from_proto_field(field: FieldView) -> Seq<char> {
    let name = name_text(field.name);
    match field_rule(field) {
        FieldRule::KeepOptional => name + ": value."@ + name
            + ".map(|field| field.try_into_native()).transpose()?"@,
        FieldRule::Delegate => name + ": value."@ + name + ".try_into_native()?"@,
    }
}

/// The body of the conversion of a protobuf struct to its native form.
pub open spec fn try_from_proto_struct_text(fields: Seq<FieldView>) -> Seq<char> {
    "use prost_convert::TryIntoNative;\n        std::result::Result::Ok(Self { "@ + join(
        fields.map_values(|field: FieldView| try_from_proto_field(field)),
        ", "@,
    ) + " })"@
}

/// Writes a name that may be missing.
fn push_name(out: &mut String, name: &Option<String>)
    ensures
        final(out)@ == old(out)@ + name_text(crate::container::name_view(*name)),
{
    match name {
        Some(text) => out.append(text.as_str()),
        None => {
            assert(out@ + Seq::<char>::empty() == out@);
        },
    }
}

/// `name: value.name` followed by the conversion call.
fn field_initialiser(name: &Option<String>, call: &str) -> (out: String)
    ensures
        out@ == name_text(crate::container::name_view(*name)) + ": value."@ + name_text(
            crate::container::name_view(*name),
        ) + call@,
{
    let mut out = String::new();
    assert(out@ + name_text(crate::container::name_view(*name)) == name_text(
        crate::container::name_view(*name),
    ));
    push_name(&mut out, name);
    out.append(": value.");
    push_name(&mut out, name);
    out.append(call);
    out
}

/// The body of `from_native` for a struct.
pub fn from_native_struct(data: &[Field]) -> (body: String)
    ensures
        body@ == from_native_struct_text(field_views(data@)),
{
    let ghost all = field_views(data@).map_values(|field: FieldView| from_native_field(field));
    let mut fields: Vec<String> = Vec::new();
    let mut i: usize = 0;
    while i < data.len()
        invariant
            i <= data.len(),
            all == field_views(data@).map_values(|field: FieldView| from_native_field(field)),
            texts(fields@) == all.take(i as int),
        decreases data.len() - i,
    {
        let field = &data[i];
        // If the native field is an option we don't to flat the proto one.
        let piece = if inner_ty("Option", field.ty).is_some() {
            field_initialiser(&field.name, ".map(|field| field.into_proto())")
        } else {
            field_initialiser(&field.name, ".into_proto()")
        };
        assert(piece@ == all[i as int]);
        proof {
            lemma_texts_push(fields@, piece);
            assert(all.take(i + 1) == all.take(i as int).push(all[i as int]));
        }
        fields.push(piece);
        i += 1;
    }
    assert(all.take(data@.len() as int) == all);
    let mut body = String::from_str("use prost_convert::IntoProto;\n        Self { ");
    push_joined(&mut body, &fields, ", ");
    body.append(" }");
    body
}

/// The body of `try_from_proto` for a struct.
pub fn try_from_proto_body_struct(data: &[Field]) -> (body: String)
    ensures
        body@ == try_from_proto_struct_text(field_views(data@)),
{
    let ghost all = field_views(data@).map_values(
        |field: FieldView| try_from_proto_field(field),
    );
    let mut fields: Vec<String> = Vec::new();
    let mut i: usize = 0;
    while i < data.len()
        invariant
            i <= data.len(),
            all == field_views(data@).map_values(
                |field: FieldView| try_from_proto_field(field),
            ),
            texts(fields@) == all.take(i as int),
        decreases data.len() - i,
    {
        let field = &data[i];
        // If the native field is an option we don't to flat the proto one.
        let piece = if inner_ty("Option", field.ty).is_some() {
            field_initialiser(
                &field.name,
                ".map(|field| field.try_into_native()).transpose()?",
            )
        } else {
            field_initialiser(&field.name, ".try_into_native()?")
        };
        assert(piece@ == all[i as int]);
        proof {
            lemma_texts_push(fields@, piece);
            assert(all.take(i + 1) == all.take(i as int).push(all[i as int]));
        }
        fields.push(piece);
        i += 1;
    }
    assert(all.take(data@.len() as int) == all);
    let mut body = String::from_str(
        "use prost_convert::TryIntoNative;\n        std::result::Result::Ok(Self { ",
    );
    push_joined(&mut body, &fields, ", ");
    body.append(" })");
    body
}

/// The name that the generated code gives the unnamed field at `position`.
pub open spec fn field_binding(position: int) -> Seq<char> {
    "__field"@ + decimal(position as nat)
}

/// The names of `count` unnamed fields, each followed by `call`.
pub open spec fn bindings(count: nat, call: Seq<char>) -> Seq<Seq<char>> {
    Seq::new(count, |position: int| field_binding(position) + call)
}

/// The names of a list of fields as they are written out.
pub open spec fn member_names(fields: Seq<FieldView>) -> Seq<Seq<char>> {
    fields.map_values(|field: FieldView| name_text(field.name))
}

/// One arm of the case analysis over the variants: the variant of `source`
/// on the left, the variant of the same name of the target on the right.
///
/// A variant without fields maps to itself. Unnamed fields are bound in
/// order and each is converted by `call`. Named fields are bound by name
/// and handed over as they are.
pub open spec fn variant_arm(source: Seq<char>, variant: VariantView, call: Seq<char>) -> Seq<
    char,
> {
    let count = variant.fields.len();
    match variant.style {
        Style::Unit => source + "::"@ + variant.ident + " => Self::"@ + variant.ident,
        Style::Newtype => source + "::"@ + variant.ident + "(__field0) => Self::"@
            + variant.ident + "(__field0"@ + call + ")"@,
        Style::Tuple => source + "::"@ + variant.ident + "("@ + join(
            bindings(count, Seq::empty()),
            ", "@,
        ) + ") => Self::"@ + variant.ident + "("@ + join(bindings(count, call), ", "@) + ")"@,
        Style::Struct => source + "::"@ + variant.ident + " { "@ + join(
            member_names(variant.fields),
            ", "@,
        ) + " } => Self::"@ + variant.ident + " { "@ + join(
            member_names(variant.fields),
            ", "@,
        ) + " }"@,
    }
}

/// The arms for a list of variants, in declaration order.
pub open spec fn variant_arms(source: Seq<char>, variants: Seq<VariantView>, call: Seq<char>) -> Seq<
    Seq<char>,
> {
    variants.map_values(|variant: VariantView| variant_arm(source, variant, call))
}

/// The body of the conversion of a native enum to its protobuf form.
pub open spec fn from_native_enum_text(variants: Seq<VariantView>, native: Seq<char>) -> Seq<
    char,
> {
    "use prost_convert::IntoProto;\n        match value { "@ + join(
        variant_arms(native, variants, ".into_proto()"@),
        ", "@,
    ) + " }"@
}

/// The body of the conversion of a protobuf enum to its native form.
pub open spec fn try_from_proto_enum_text(variants: Seq<VariantView>, proto: PathView) -> Seq<
    char,
> {
    "use prost_convert::TryIntoNative;\n        std::result::Result::Ok(match value { "@ + join(
        variant_arms(proto.text(), variants, ".try_into_native()?"@),
        ", "@,
    ) + " })"@
}

/// The names of `count` unnamed fields, each followed by `call`.
fn field_bindings(count: usize, call: &str) -> (names: Vec<String>)
    ensures
        texts(names@) == bindings(count as nat, call@),
{
    let ghost all = bindings(count as nat, call@);
    let mut names: Vec<String> = Vec::new();
    let mut i: usize = 0;
    while i < count
        invariant
            i <= count,
            all == bindings(count as nat, call@),
            texts(names@) == all.take(i as int),
        decreases count - i,
    {
        let mut name = String::from_str("__field");
        push_decimal(&mut name, i as u64);
        name.append(call);
        proof {
            lemma_texts_push(names@, name);
            assert(all.take(i + 1) == all.take(i as int).push(all[i as int]));
        }
        names.push(name);
        i += 1;
    }
    assert(all.take(count as int) == all);
    names
}

/// The names of a list of fields.
fn field_names(fields: &Vec<Field>) -> (names: Vec<String>)
    ensures
        texts(names@) == member_names(field_views(fields@)),
{
    let ghost all = member_names(field_views(fields@));
    let mut names: Vec<String> = Vec::new();
    let mut i: usize = 0;
    while i < fields.len()
        invariant
            i <= fields.len(),
            all == member_names(field_views(fields@)),
            texts(names@) == all.take(i as int),
        decreases fields.len() - i,
    {
        let mut name = String::new();
        push_name(&mut name, &fields[i].name);
        assert(name@ == all[i as int]);
        proof {
            lemma_texts_push(names@, name);
            assert(all.take(i + 1) == all.take(i as int).push(all[i as int]));
        }
        names.push(name);
        i += 1;
    }
    assert(all.take(fields@.len() as int) == all);
    names
}

/// One arm of the case analysis over the variants.
fn arm(source: &str, variant: &Variant, call: &str) -> (out: String)
    ensures
        out@ == variant_arm(source@, variant@, call@),
{
    let mut out = String::from_str(source);
    out.append("::");
    out.append(variant.ident.as_str());
    assert(field_views(variant.fields@).len() == variant.fields@.len());
    match variant.style {
        Style::Unit => {
            out.append(" => Self::");
            out.append(variant.ident.as_str());
        },
        Style::Newtype => {
            out.append("(__field0) => Self::");
            out.append(variant.ident.as_str());
            out.append("(__field0");
            out.append(call);
            out.append(")");
        },
        Style::Tuple => {
            let plain = field_bindings(variant.fields.len(), "");
            let converted = field_bindings(variant.fields.len(), call);
            proof {
                reveal_strlit("");
                assert(""@ == Seq::<char>::empty());
            }
            out.append("(");
            push_joined(&mut out, &plain, ", ");
            out.append(") => Self::");
            out.append(variant.ident.as_str());
            out.append("(");
            push_joined(&mut out, &converted, ", ");
            out.append(")");
        },
        Style::Struct => {
            let members = field_names(&variant.fields);
            out.append(" { ");
            push_joined(&mut out, &members, ", ");
            out.append(" } => Self::");
            out.append(variant.ident.as_str());
            out.append(" { ");
            push_joined(&mut out, &members, ", ");
            out.append(" }");
        },
    }
    out
}

/// The arms for a list of variants, in declaration order.
fn arms(source: &str, data: &[Variant], call: &str) -> (pieces: Vec<String>)
    ensures
        texts(pieces@) == variant_arms(source@, variant_views(data@), call@),
{
    let ghost all = variant_arms(source@, variant_views(data@), call@);
    let mut pieces: Vec<String> = Vec::new();
    let mut i: usize = 0;
    while i < data.len()
        invariant
            i <= data.len(),
            all == variant_arms(source@, variant_views(data@), call@),
            texts(pieces@) == all.take(i as int),
        decreases data.len() - i,
    {
        let piece = arm(source, &data[i], call);
        assert(piece@ == all[i as int]);
        proof {
            lemma_texts_push(pieces@, piece);
            assert(all.take(i + 1) == all.take(i as int).push(all[i as int]));
        }
        pieces.push(piece);
        i += 1;
    }
    assert(all.take(data@.len() as int) == all);
    pieces
}

/// The body of `from_native` for an enum.
pub fn from_native_enum(data: &[Variant], native: &str) -> (body: String)
    ensures
        body@ == from_native_enum_text(variant_views(data@), native@),
{
    let pieces = arms(native, data, ".into_proto()");
    let mut body = String::from_str("use prost_convert::IntoProto;\n        match value { ");
    push_joined(&mut body, &pieces, ", ");
    body.append(" }");
    body
}

/// The body of `try_from_proto` for an enum.
pub fn try_from_proto_body_enum(data: &[Variant], attrs: &crate::attributes::Attributes) -> (body:
    String)
    ensures
        body@ == try_from_proto_enum_text(variant_views(data@), attrs@.src),
{
    let mut proto = String::new();
    assert(proto@ + attrs@.src.text() == attrs@.src.text());
    attrs.src().push_to(&mut proto);
    let pieces = arms(proto.as_str(), data, ".try_into_native()?");
    let mut body = String::from_str(
        "use prost_convert::TryIntoNative;\n        std::result::Result::Ok(match value { ",
    );
    push_joined(&mut body, &pieces, ", ");
    body.append(" })");
    body
}

/// An implementation of `FromNative` that turns a value of the type
/// `native` into one of the type `target`.
pub open spec fn from_native_impl(native: Seq<char>, target: Seq<char>, body: Seq<char>) -> Seq<
    char,
> {
    "impl prost_convert::FromNative<"@ + native + "> for "@ + target
        + " {\n    fn from_native(value: "@ + native + ") -> Self {\n        "@ + body
        + "\n    }\n}\n"@
}

/// An implementation of `TryFromProto` that turns a value of the type
/// `source` into one of the type `native`, or fails.
pub open spec fn try_from_proto_impl(source: Seq<char>, native: Seq<char>, body: Seq<char>) -> Seq<
    char,
> {
    "impl prost_convert::TryFromProto<"@ + source + "> for "@ + native
        + " {\n    fn try_from_proto(value: "@ + source
        + ") -> std::result::Result<Self, prost_convert::ProstConvertError> {\n        "@ + body
        + "\n    }\n}\n"@
}

/// Writes an implementation of `FromNative`.
fn push_from_native_impl(out: &mut String, native: &str, target: &str, body: &str)
    ensures
        final(out)@ == old(out)@ + from_native_impl(native@, target@, body@),
{
    let mut text = String::from_str("impl prost_convert::FromNative<");
    text.append(native);
    text.append("> for ");
    text.append(target);
    text.append(" {\n    fn from_native(value: ");
    text.append(native);
    text.append(") -> Self {\n        ");
    text.append(body);
    text.append("\n    }\n}\n");
    out.append(text.as_str());
}

/// Writes an implementation of `TryFromProto`.
fn push_try_from_proto_impl(out: &mut String, source: &str, native: &str, body: &str)
    ensures
        final(out)@ == old(out)@ + try_from_proto_impl(source@, native@, body@),
{
    let mut text = String::from_str("impl prost_convert::TryFromProto<");
    text.append(source);
    text.append("> for ");
    text.append(native);
    text.append(" {\n    fn try_from_proto(value: ");
    text.append(source);
    text.append(") -> std::result::Result<Self, prost_convert::ProstConvertError> {\n        ");
    text.append(body);
    text.append("\n    }\n}\n");
    out.append(text.as_str());
}

/// The two conversions between a native type and the message that wraps
/// its protobuf form. The wrapper's field is taken to be named like the
/// native type, in snake case.
pub open spec fn wrapper_impl_text(wrapper: PathView, native: Seq<char>) -> Seq<char> {
    try_from_proto_impl(
        wrapper.text(),
        native,
        "use prost_convert::TryIntoNative;\n        value."@ + snake_case(native)
            + ".try_into_native()"@,
    ) + from_native_impl(
        native,
        wrapper.text(),
        "use prost_convert::IntoProto;\n        Self { "@ + snake_case(native)
            + ": value.into_proto(), }"@,
    )
}

/// The name of the wrapper's field for a native type.
pub fn ident_to_snake_case(ident: &str) -> (field: String)
    ensures
        field@ == snake_case(ident@),
{
    to_snake_case(ident)
}

/// The conversions through a wrapper message.
// we assume that the inner struct got the same name as the Wrapped one in lower case.
pub fn wrapper_struct_impl(wrapper: &Path, native: &str) -> (text: String)
    ensures
        text@ == wrapper_impl_text(wrapper@, native@),
{
    let wrapper_inner_field = ident_to_snake_case(native);
    let mut target = String::new();
    assert(target@ + wrapper@.text() == wrapper@.text());
    wrapper.push_to(&mut target);

    let mut back = String::from_str("use prost_convert::TryIntoNative;\n        value.");
    back.append(wrapper_inner_field.as_str());
    back.append(".try_into_native()");

    let mut forth = String::from_str("use prost_convert::IntoProto;\n        Self { ");
    forth.append(wrapper_inner_field.as_str());
    forth.append(": value.into_proto(), }");

    let mut text = String::new();
    push_try_from_proto_impl(&mut text, target.as_str(), native, back.as_str());
    assert(text@ == try_from_proto_impl(wrapper@.text(), native@, back@));
    push_from_native_impl(&mut text, native, target.as_str(), forth.as_str());
    text
}

/// The integer that stands for the variant at `position`: the position
/// itself as long as it fits in an `i32`, wrapped around beyond that.
pub open spec fn discriminant(position: int) -> int {
    let low = position % 0x1_0000_0000;
    if low < 0x8000_0000 {
        low
    } else {
        low - 0x1_0000_0000
    }
}

/// The arm that gives the variant at `position` its integer.
pub open spec fn to_integer_arm(native: Seq<char>, variant: VariantView, position: int) -> Seq<
    char,
> {
    native + "::"@ + variant.ident + " => "@ + signed_decimal(discriminant(position)) + "i32"@
}

/// The arm that reads the variant at `position` from its integer.
pub open spec fn from_integer_arm(native: Seq<char>, variant: VariantView, position: int) -> Seq<
    char,
> {
    signed_decimal(discriminant(position)) + "i32 => std::result::Result::Ok("@ + native + "::"@
        + variant.ident + ")"@
}

/// The two conversions between a flat enumeration and `i32`: each variant
/// goes to the integer of its position in the declaration, and an integer
/// that no variant has is a missing required field.
pub open spec fn integer_impl_text(variants: Seq<VariantView>, native: Seq<char>) -> Seq<char> {
    from_native_impl(
        native,
        "i32"@,
        "match value { "@ + listed(
            Seq::new(
                variants.len(),
                |position: int| to_integer_arm(native, variants[position], position),
            ),
        ) + "}"@,
    ) + try_from_proto_impl(
        "i32"@,
        native,
        "match value { "@ + listed(
            Seq::new(
                variants.len(),
                |position: int| from_integer_arm(native, variants[position], position),
            ),
        )
            + "_ => std::result::Result::Err(prost_convert::ProstConvertError::MissingRequiredField), }"@,
    )
}

/// The integer of the position after the one that has the integer `n`.
fn next_discriminant(n: i32, Ghost(position): Ghost<int>) -> (next: i32)
    requires
        n == discriminant(position),
    ensures
        next == discriminant(position + 1),
{
    if n == i32::MAX {
        i32::MIN
    } else {
        n + 1
    }
}

/// The conversions between a flat enumeration and `i32`.
pub fn enum_i32_convertion(variants: &[Variant], container: &Container) -> (text: Result<
    String,
    DeriveError,
>)
    ensures
        text matches Ok(written) && written@ == integer_impl_text(
            variant_views(variants@),
            container.ident@,
        ),
{
    let native = container.ident.as_str();
    let ghost views = variant_views(variants@);
    let ghost forth = Seq::new(
        views.len(),
        |position: int| to_integer_arm(native@, views[position], position),
    );
    let ghost back = Seq::new(
        views.len(),
        |position: int| from_integer_arm(native@, views[position], position),
    );
    let mut from_native_arm: Vec<String> = Vec::new();
    let mut try_from_proto_arm: Vec<String> = Vec::new();
    let mut n: i32 = 0;
    let mut i: usize = 0;
    while i < variants.len()
        invariant
            i <= variants.len(),
            views == variant_views(variants@),
            native@ == container.ident@,
            forth == Seq::new(
                views.len(),
                |position: int| to_integer_arm(native@, views[position], position),
            ),
            back == Seq::new(
                views.len(),
                |position: int| from_integer_arm(native@, views[position], position),
            ),
            n == discriminant(i as int),
            texts(try_from_proto_arm@) == forth.take(i as int),
            texts(from_native_arm@) == back.take(i as int),
        decreases variants.len() - i,
    {
        let ident = variants[i].ident.as_str();
        assert(views[i as int].ident == ident@);

        let mut to_integer = String::from_str(native);
        to_integer.append("::");
        to_integer.append(ident);
        to_integer.append(" => ");
        push_signed_decimal(&mut to_integer, n);
        to_integer.append("i32");
        assert(to_integer@ == forth[i as int]);

        let mut from_integer = String::new();
        assert(from_integer@ + signed_decimal(n as int) == signed_decimal(n as int));
        push_signed_decimal(&mut from_integer, n);
        from_integer.append("i32 => std::result::Result::Ok(");
        from_integer.append(native);
        from_integer.append("::");
        from_integer.append(ident);
        from_integer.append(")");
        assert(from_integer@ == back[i as int]);

        proof {
            lemma_texts_push(try_from_proto_arm@, to_integer);
            lemma_texts_push(from_native_arm@, from_integer);
            assert(forth.take(i + 1) == forth.take(i as int).push(forth[i as int]));
            assert(back.take(i + 1) == back.take(i as int).push(back[i as int]));
        }
        try_from_proto_arm.push(to_integer);
        from_native_arm.push(from_integer);
        n = next_discriminant(n, Ghost(i as int));
        i += 1;
    }
    assert(forth.take(views.len() as int) == forth);
    assert(back.take(views.len() as int) == back);

    let mut to_body = String::from_str("match value { ");
    push_listed(&mut to_body, &try_from_proto_arm);
    to_body.append("}");

    // The error kind is shared with absent fields.
    let mut from_body = String::from_str("match value { ");
    push_listed(&mut from_body, &from_native_arm);
    from_body.append(
        "_ => std::result::Result::Err(prost_convert::ProstConvertError::MissingRequiredField), }",
    );

    let mut text = String::new();
    push_from_native_impl(&mut text, native, "i32", to_body.as_str());
    assert(text@ == from_native_impl(native@, "i32"@, to_body@));
    push_try_from_proto_impl(&mut text, "i32", native, from_body.as_str());
    Ok(text)
}

/// The body of the conversion of a native value to its protobuf form.
pub open spec fn from_native_body_text(container: ContainerView) -> Seq<char> {
    match container.data {
        DataView::Enum(variants) => from_native_enum_text(variants, container.ident),
        DataView::Struct(fields) => from_native_struct_text(fields),
    }
}

/// The body of the conversion of a protobuf value to its native form.
pub open spec fn try_from_proto_body_text(container: ContainerView) -> Seq<char> {
    match container.data {
        DataView::Enum(variants) => try_from_proto_enum_text(variants, container.attrs.src),
        DataView::Struct(fields) => try_from_proto_struct_text(fields),
    }
}

/// The conversions through the wrapper message, if one is named.
pub open spec fn wrapper_part(container: ContainerView) -> Seq<char> {
    match container.attrs.wrapper {
        Some(wrapper) => wrapper_impl_text(wrapper, container.ident),
        None => Seq::empty(),
    }
}

/// The conversions to and from `i32`, if the type is a flat enumeration.
pub open spec fn integer_part(container: ContainerView) -> Seq<char> {
    match container.unit_variants() {
        Some(variants) => integer_impl_text(variants, container.ident),
        None => Seq::empty(),
    }
}

/// Everything that is generated for a type: the conversion to the protobuf
/// type and the one back, then those through the wrapper message where one
/// is named, then those to and from `i32` for a flat enumeration.
pub open spec fn expansion(container: ContainerView) -> Seq<char> {
    from_native_impl(
        container.ident,
        container.attrs.src.text(),
        from_native_body_text(container),
    ) + try_from_proto_impl(
        container.attrs.src.text(),
        container.ident,
        try_from_proto_body_text(container),
    ) + wrapper_part(container) + integer_part(container)
}

/// return the body of the `from_native` function.
pub fn from_native_body(cont: &Container) -> (body: String)
    ensures
        body@ == from_native_body_text(cont@),
{
    match &cont.data {
        Data::Enum(data) => from_native_enum(data.as_slice(), cont.ident.as_str()),
        Data::Struct(data) => from_native_struct(data.as_slice()),
    }
}

/// return the body of the `try_from_proto` function.
pub fn try_from_proto_body(container: &Container) -> (body: String)
    ensures
        body@ == try_from_proto_body_text(container@),
{
    match &container.data {
        Data::Enum(data) => try_from_proto_body_enum(data.as_slice(), &container.attrs),
        Data::Struct(data) => try_from_proto_body_struct(data.as_slice()),
    }
}

/// Generates the conversions for an annotated definition, or says what is
/// wrong with it.
pub fn expand_derive_prost_convert(ast: DeriveInput) -> (expanded: Result<String, DeriveError>)
    ensures
        match expanded {
            Ok(text) => analysis(ast) matches Ok(container) && text@ == expansion(container),
            Err(error) => analysis(ast) == Err::<ContainerView, _>(error@),
        },
{
    let container = match Container::from_ast(&ast) {
        Ok(container) => container,
        Err(error) => {
            return Err(error);
        },
    };

    let native = container.ident.as_str();
    let mut proto = String::new();
    assert(proto@ + container@.attrs.src.text() == container@.attrs.src.text());
    container.attrs.src().push_to(&mut proto);
    let from_native_body = from_native_body(&container);
    let try_from_proto_body = try_from_proto_body(&container);

    let mut expanded = String::new();
    push_from_native_impl(&mut expanded, native, proto.as_str(), from_native_body.as_str());
    assert(expanded@ == from_native_impl(native@, proto@, from_native_body@));
    push_try_from_proto_impl(&mut expanded, proto.as_str(), native, try_from_proto_body.as_str());

    match container.attrs.wrapper() {
        Some(wrapper) => {
            let part = wrapper_struct_impl(wrapper, native);
            expanded.append(part.as_str());
        },
        None => {
            assert(expanded@ + wrapper_part(container@) == expanded@);
        },
    }

    match container.unit_variants() {
        Some(variants) => {
            match enum_i32_convertion(variants, &container) {
                Ok(part) => expanded.append(part.as_str()),
                Err(_) => {},
            }
        },
        None => {
            assert(expanded@ + integer_part(container@) == expanded@);
        },
    }

    Ok(expanded)
}

} // verus!
