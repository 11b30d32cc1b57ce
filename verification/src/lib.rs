//! Conversions between native data types and their protobuf counterparts,
//! and the generator that writes such conversions for annotated types.

pub mod ast;
pub mod attributes;
pub mod container;
pub mod convert;
pub mod error;
pub mod expand;
pub mod laws;
pub mod maps;
pub mod scalar;
pub mod symbol;
pub mod text;
pub mod textual;

pub use convert::{FromNative, IntoProto, ProstConvertError, TryFromProto, TryIntoNative};
