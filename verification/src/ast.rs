//! The syntax of an annotated type definition, as plain data: what a parser
//! of type definitions hands to the generator.

use crate::text::{join, push_joined, str_equal, texts};
use vstd::prelude::*;
use vstd::string::*;

verus! {

/// A module-style path such as `proto::Message`: identifiers separated by
/// `::`, none of them with generic arguments.
#[derive(Debug, PartialEq, Eq)]
pub struct Path {
    /// Whether the path starts with `::`.
    pub leading_colon: bool,
    /// The identifiers of the path, in order.
    pub segments: Vec<String>,
}

/// The mathematical value of a [`Path`].
pub struct PathView {
    pub leading_colon: bool,
    pub segments: Seq<Seq<char>>,
}

impl PathView {
    /// Whether the path is the single identifier `word`: no leading `::` and
    /// exactly one segment, equal to `word`.
    pub open spec fn is_ident(self, word: Seq<char>) -> bool {
        &&& !self.leading_colon
        &&& self.segments.len() == 1
        &&& self.segments[0] == word
    }

    /// The path as source text.
    pub open spec fn text(self) -> Seq<char> {
        if self.leading_colon {
            "::"@ + join(self.segments, "::"@)
        } else {
            join(self.segments, "::"@)
        }
    }
}

impl View for Path {
    type V = PathView;

    open spec fn view(&self) -> PathView {
        PathView { leading_colon: self.leading_colon, segments: texts(self.segments@) }
    }
}

impl Path {
    /// Whether the path is the single identifier `word`.
    pub fn is_ident(&self, word: &str) -> (same: bool)
        ensures
            same == self@.is_ident(word@),
    {
        !self.leading_colon && self.segments.len() == 1 && str_equal(
            self.segments[0].as_str(),
            word,
        )
    }

    /// Writes the path as source text at the end of `out`.
    pub fn push_to(&self, out: &mut String)
        ensures
            final(out)@ == old(out)@ + self@.text(),
    {
        if self.leading_colon {
            out.append("::");
        }
        push_joined(out, &self.segments, "::");
    }
}

/// A literal in an attribute. Only string literals carry a value here.
#[derive(Debug, PartialEq, Eq)]
pub enum Lit {
    /// A string literal, with the text it denotes.
    Str(String),
    /// Any other literal: a number, a character, a boolean, a byte string.
    Other,
}

/// `name = literal` inside an attribute.
#[derive(Debug, PartialEq, Eq)]
pub struct MetaNameValue {
    pub path: Path,
    pub lit: Lit,
}

/// `name(arguments)` inside an attribute.
#[derive(Debug, PartialEq, Eq)]
pub struct MetaList {
    pub path: Path,
    pub nested: Vec<NestedMeta>,
}

/// The content of an attribute in structured form.
#[derive(Debug, PartialEq, Eq)]
pub enum Meta {
    /// A bare name, as in `#[test]`.
    Path(Path),
    /// A name with a list of arguments, as in `#[derive(Clone)]`.
    List(MetaList),
    /// A name with a value, as in `#[path = "a.rs"]`.
    NameValue(MetaNameValue),
}

/// One argument of an attribute's argument list.
#[derive(Debug, PartialEq, Eq)]
pub enum NestedMeta {
    /// A structured argument, such as `src = "proto::Message"`.
    Meta(Meta),
    /// A bare literal.
    Lit(Lit),
}

/// An attribute attached to a type definition.
#[derive(Debug, PartialEq, Eq)]
pub struct Attribute {
    /// The name of the attribute.
    pub path: Path,
    /// The attribute in structured form, or the parser's complaint where
    /// its tokens have no such form.
    pub meta: Result<Meta, String>,
}

/// The declared type of a field, as far as its syntax matters here.
#[derive(Debug, PartialEq, Eq)]
pub enum Type {
    /// A path type such as `Option<String>` or `std::vec::Vec<u8>`: its
    /// segments in order.
    Path(Vec<PathSegment>),
    /// Any other form of type: a reference, a tuple, an array and so on.
    Other,
}

/// One segment of a path type.
#[derive(Debug, PartialEq, Eq)]
pub struct PathSegment {
    pub ident: String,
    pub arguments: PathArguments,
}

/// The generic arguments of a path segment.
#[derive(Debug, PartialEq, Eq)]
pub enum PathArguments {
    /// No arguments, as in `String`.
    Empty,
    /// Arguments in angle brackets, as in `Option<String>`.
    AngleBracketed(Vec<GenericArgument>),
    /// Arguments in parentheses, as in `Fn(u8) -> bool`.
    Parenthesized,
}

/// One argument in angle brackets.
#[derive(Debug, PartialEq, Eq)]
pub enum GenericArgument {
    /// A type argument.
    Type(Type),
    /// A lifetime, a constant, a binding or a constraint.
    Other,
}

/// A field of a struct or of an enum variant.
#[derive(Debug, PartialEq, Eq)]
pub struct Field {
    /// The field's name; absent for fields of tuple form.
    pub ident: Option<String>,
    /// The field's declared type.
    pub ty: Type,
}

/// The fields of a struct or of an enum variant.
#[derive(Debug, PartialEq, Eq)]
pub enum Fields {
    /// Named fields in braces.
    Named(Vec<Field>),
    /// Unnamed fields in parentheses.
    Unnamed(Vec<Field>),
    /// No fields at all.
    Unit,
}

/// A variant of an enum.
#[derive(Debug, PartialEq, Eq)]
pub struct Variant {
    pub ident: String,
    pub fields: Fields,
}

/// What a type definition declares.
#[derive(Debug, PartialEq, Eq)]
pub enum Data {
    Struct(Fields),
    Enum(Vec<Variant>),
    Union,
}

/// A type definition with its attributes.
#[derive(Debug, PartialEq, Eq)]
pub struct DeriveInput {
    /// The attributes on the definition, in source order.
    pub attrs: Vec<Attribute>,
    /// The name of the type.
    pub ident: String,
    /// The declared shape.
    pub data: Data,
}

} // verus!
