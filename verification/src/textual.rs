//! Conversions of native types that protobuf carries as text: file paths
//! and unique identifiers.

use crate::convert::{FromNative, ProstConvertError, TryFromProto};
use std::path::PathBuf;
use uuid::Uuid;
use vstd::prelude::*;

verus! {

/// The path type of the standard library.
#[verifier::external_type_specification]
#[verifier::external_body]
pub struct ExPathBuf(PathBuf);

/// The identifier type of the `uuid` crate.
#[verifier::external_type_specification]
#[verifier::external_body]
pub struct ExUuid(Uuid);

/// The text of a path as `Path::to_string_lossy` gives it: the path itself
/// where it is valid Unicode, with a replacement character for every other
/// sequence.
pub uninterp spec fn path_text(path: PathBuf) -> Seq<char>;

/// The path that a text spells, as `PathBuf`'s `FromStr` builds it.
pub uninterp spec fn path_of_text(text: Seq<char>) -> PathBuf;

/// The text of an identifier as `Uuid`'s `Display` writes it: lowercase
/// hexadecimal digits in hyphenated groups.
pub uninterp spec fn uuid_text(id: Uuid) -> Seq<char>;

/// The identifier that `Uuid::parse_str` reads from a text, `None` where it
/// refuses the text.
pub uninterp spec fn uuid_of_text(text: Seq<char>) -> Option<Uuid>;

/// `Path::to_string_lossy`, made an owned string: the text named by
/// [`path_text`].
#[verifier::external_body]
fn path_to_string(path: PathBuf) -> (text: String)
    ensures
        text@ == path_text(path),
{
    path.to_string_lossy().into_owned()
}

/// `PathBuf`'s `FromStr`, which never fails: the path named by
/// [`path_of_text`].
#[verifier::external_body]
fn path_from_string(text: String) -> (path: Result<PathBuf, std::convert::Infallible>)
    ensures
        match path {
            Ok(found) => found == path_of_text(text@),
            Err(_) => false,
        },
{
    text.parse()
}

/// `Uuid`'s `Display`: the text named by [`uuid_text`]. It is one of the
/// forms that `Uuid::parse_str` reads, and reads back as the same
/// identifier.
#[verifier::external_body]
fn uuid_to_string(id: Uuid) -> (text: String)
    ensures
        text@ == uuid_text(id),
        uuid_of_text(text@) == Some(id),
{
    id.to_string()
}

/// `Uuid`'s `FromStr`, which is `Uuid::parse_str`: the outcome named by
/// [`uuid_of_text`].
#[verifier::external_body]
fn uuid_from_string(text: String) -> (id: Result<Uuid, uuid::Error>)
    ensures
        match id {
            Ok(found) => uuid_of_text(text@) == Some(found),
            Err(_) => uuid_of_text(text@) is None,
        },
{
    text.parse()
}

impl FromNative<PathBuf> for String {
    /// The protobuf form is the text of the path.
    open spec fn from_native_spec(value: PathBuf, wire: String) -> bool {
        wire@ == path_text(value)
    }

    fn from_native(value: PathBuf) -> (wire: String) {
        path_to_string(value)
    }
}

impl TryFromProto<String> for PathBuf {
    /// Every text spells a path.
    open spec fn try_from_proto_spec(value: String, native: Result<PathBuf, ProstConvertError>) -> bool {
        native matches Ok(found) && found == path_of_text(value@)
    }

    fn try_from_proto(value: String) -> (native: Result<PathBuf, ProstConvertError>) {
        match path_from_string(value) {
            Ok(found) => Ok(found),
            Err(error) => Err(ProstConvertError::from(error)),
        }
    }
}

impl FromNative<Uuid> for String {
    /// The protobuf form is the text of the identifier.
    open spec fn from_native_spec(value: Uuid, wire: String) -> bool {
        wire@ == uuid_text(value) && uuid_of_text(wire@) == Some(value)
    }

    fn from_native(value: Uuid) -> (wire: String) {
        uuid_to_string(value)
    }
}

impl TryFromProto<String> for Uuid {
    /// A text that spells an identifier converts to it; any other is an
    /// identifier error.
    open spec fn try_from_proto_spec(value: String, native: Result<Uuid, ProstConvertError>) -> bool {
        match uuid_of_text(value@) {
            Some(id) => native matches Ok(found) && found == id,
            None => native matches Err(error) && error is UuidEroor,
        }
    }

    fn try_from_proto(value: String) -> (native: Result<Uuid, ProstConvertError>) {
        match uuid_from_string(value) {
            Ok(found) => Ok(found),
            Err(error) => Err(ProstConvertError::from(error)),
        }
    }
}

} // verus!
