//! Failures of the generator: what is wrong with an annotated definition,
//! and where.

use vstd::prelude::*;
use vstd::string::*;

verus! {

/// The error type of the `syn` parser.
#[verifier::external_type_specification]
#[verifier::external_body]
pub struct ExSynError(syn::Error);

/// The part of an annotated definition that a failure points at.
#[derive(Copy, Clone, Debug, PartialEq, Eq)]
pub enum Anchor {
    /// The whole definition.
    Input,
    /// The attribute with this index among the definition's attributes.
    Attribute(usize),
    /// An argument of an attribute: the attribute's index, then the
    /// argument's index in the attribute's list.
    Argument(usize, usize),
    /// The literal value of such an argument.
    Value(usize, usize),
}

/// Why no conversions can be generated for a definition.
#[derive(Debug)]
pub enum DeriveError {
    /// The `src` argument is missing, or something else stands where
    /// `src = "..."` or `wrapper = "..."` is expected.
    ExpectedSrc(Anchor),
    /// A bare literal stands among the arguments.
    UnexpectedLiteral(Anchor),
    /// The definition is a union.
    UnsupportedUnion,
    /// The attribute with this index is no well-formed attribute; the text
    /// is the parser's complaint.
    MalformedAttribute(usize, String),
    /// The value of `src` or `wrapper` is no module-style path.
    InvalidPath(Anchor, syn::Error),
}

/// The mathematical value of a [`DeriveError`]: the failure without the
/// parser's own error value.
pub enum Failure {
    ExpectedSrc(Anchor),
    UnexpectedLiteral(Anchor),
    UnsupportedUnion,
    MalformedAttribute(usize, Seq<char>),
    InvalidPath(Anchor),
}

impl Failure {
    /// The part of the definition that the failure points at.
    pub open spec fn anchor(self) -> Anchor {
        match self {
            Failure::ExpectedSrc(anchor) => anchor,
            Failure::UnexpectedLiteral(anchor) => anchor,
            Failure::UnsupportedUnion => Anchor::Input,
            Failure::MalformedAttribute(index, _) => Anchor::Attribute(index),
            Failure::InvalidPath(anchor) => anchor,
        }
    }

    /// The text of the diagnostic, where the generator words it itself.
    pub open spec fn message(self) -> Option<Seq<char>> {
        match self {
            Failure::ExpectedSrc(_) => Some("expected `prost_convert(src = \"...\")`"@),
            Failure::UnexpectedLiteral(_) => Some(
                "unexpected literal in prost_derive field attribute"@,
            ),
            Failure::UnsupportedUnion => Some("ProstConvert does not support derive for unions"@),
            Failure::MalformedAttribute(_, complaint) => Some(complaint),
            Failure::InvalidPath(_) => None,
        }
    }
}

impl View for DeriveError {
    type V = Failure;

    open spec fn view(&self) -> Failure {
        match self {
            DeriveError::ExpectedSrc(anchor) => Failure::ExpectedSrc(*anchor),
            DeriveError::UnexpectedLiteral(anchor) => Failure::UnexpectedLiteral(*anchor),
            DeriveError::UnsupportedUnion => Failure::UnsupportedUnion,
            DeriveError::MalformedAttribute(index, complaint) => Failure::MalformedAttribute(
                *index,
                complaint@,
            ),
            DeriveError::InvalidPath(anchor, _) => Failure::InvalidPath(*anchor),
        }
    }
}

/// `syn::Error`'s `Display`: the message that the parser gave. Nothing is
/// claimed of the text.
#[verifier::external_body]
fn parser_message(error: &syn::Error) -> String {
    error.to_string()
}

impl DeriveError {
    /// The part of the definition that the failure points at.
    pub fn anchor(&self) -> (anchor: Anchor)
        ensures
            anchor == self@.anchor(),
    {
        match self {
            DeriveError::ExpectedSrc(anchor) => *anchor,
            DeriveError::UnexpectedLiteral(anchor) => *anchor,
            DeriveError::UnsupportedUnion => Anchor::Input,
            DeriveError::MalformedAttribute(index, _) => Anchor::Attribute(*index),
            DeriveError::InvalidPath(anchor, _) => *anchor,
        }
    }

    /// The text of the diagnostic. For a path that does not parse it is the
    /// parser's own message.
    pub fn message(&self) -> (text: String)
        ensures
            self@.message() matches Some(expected) ==> text@ == expected,
    {
        match self {
            DeriveError::ExpectedSrc(_) => String::from_str(
                "expected `prost_convert(src = \"...\")`",
            ),
            DeriveError::UnexpectedLiteral(_) => String::from_str(
                "unexpected literal in prost_derive field attribute",
            ),
            DeriveError::UnsupportedUnion => String::from_str(
                "ProstConvert does not support derive for unions",
            ),
            DeriveError::MalformedAttribute(_, complaint) => complaint.clone(),
            DeriveError::InvalidPath(_, error) => parser_message(error),
        }
    }
}

} // verus!
