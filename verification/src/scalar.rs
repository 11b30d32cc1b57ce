//! Conversions of the scalar types of protobuf, and of the narrower
//! integers that protobuf carries in wider ones.

use crate::convert::{FromNative, ProstConvertError, TryFromProto};
use vstd::prelude::*;

verus! {

impl TryFromProto<i32> for i32 {
    /// A `i32` is its own native form.
    open spec fn try_from_proto_spec(value: i32, native: Result<i32, ProstConvertError>) -> bool {
        native matches Ok(found) && found == value
    }

    fn try_from_proto(value: i32) -> (native: Result<i32, ProstConvertError>) {
        Ok(value)
    }
}

impl FromNative<i32> for i32 {
    /// A `i32` is its own protobuf form.
    open spec fn from_native_spec(value: i32, wire: i32) -> bool {
        wire == value
    }

    fn from_native(value: i32) -> (wire: i32) {
        value
    }
}

impl TryFromProto<i64> for i64 {
    /// A `i64` is its own native form.
    open spec fn try_from_proto_spec(value: i64, native: Result<i64, ProstConvertError>) -> bool {
        native matches Ok(found) && found == value
    }

    fn try_from_proto(value: i64) -> (native: Result<i64, ProstConvertError>) {
        Ok(value)
    }
}

impl FromNative<i64> for i64 {
    /// A `i64` is its own protobuf form.
    open spec fn from_native_spec(value: i64, wire: i64) -> bool {
        wire == value
    }

    fn from_native(value: i64) -> (wire: i64) {
        value
    }
}

impl TryFromProto<u32> for u32 {
    /// A `u32` is its own native form.
    open spec fn try_from_proto_spec(value: u32, native: Result<u32, ProstConvertError>) -> bool {
        native matches Ok(found) && found == value
    }

    fn try_from_proto(value: u32) -> (native: Result<u32, ProstConvertError>) {
        Ok(value)
    }
}

impl FromNative<u32> for u32 {
    /// A `u32` is its own protobuf form.
    open spec fn from_native_spec(value: u32, wire: u32) -> bool {
        wire == value
    }

    fn from_native(value: u32) -> (wire: u32) {
        value
    }
}

impl TryFromProto<u64> for u64 {
    /// A `u64` is its own native form.
    open spec fn try_from_proto_spec(value: u64, native: Result<u64, ProstConvertError>) -> bool {
        native matches Ok(found) && found == value
    }

    fn try_from_proto(value: u64) -> (native: Result<u64, ProstConvertError>) {
        Ok(value)
    }
}

impl FromNative<u64> for u64 {
    /// A `u64` is its own protobuf form.
    open spec fn from_native_spec(value: u64, wire: u64) -> bool {
        wire == value
    }

    fn from_native(value: u64) -> (wire: u64) {
        value
    }
}

impl TryFromProto<bool> for bool {
    /// A `bool` is its own native form.
    open spec fn try_from_proto_spec(value: bool, native: Result<bool, ProstConvertError>) -> bool {
        native matches Ok(found) && found == value
    }

    fn try_from_proto(value: bool) -> (native: Result<bool, ProstConvertError>) {
        Ok(value)
    }
}

impl FromNative<bool> for bool {
    /// A `bool` is its own protobuf form.
    open spec fn from_native_spec(value: bool, wire: bool) -> bool {
        wire == value
    }

    fn from_native(value: bool) -> (wire: bool) {
        value
    }
}

impl TryFromProto<String> for String {
    /// A `String` is its own native form.
    open spec fn try_from_proto_spec(value: String, native: Result<String, ProstConvertError>) -> bool {
        native matches Ok(found) && found == value
    }

    fn try_from_proto(value: String) -> (native: Result<String, ProstConvertError>) {
        Ok(value)
    }
}

impl FromNative<String> for String {
    /// A `String` is its own protobuf form.
    open spec fn from_native_spec(value: String, wire: String) -> bool {
        wire == value
    }

    fn from_native(value: String) -> (wire: String) {
        value
    }
}

impl TryFromProto<Vec<u8>> for Vec<u8> {
    /// A `Vec<u8>` is its own native form.
    open spec fn try_from_proto_spec(value: Vec<u8>, native: Result<Vec<u8>, ProstConvertError>) -> bool {
        native matches Ok(found) && found == value
    }

    fn try_from_proto(value: Vec<u8>) -> (native: Result<Vec<u8>, ProstConvertError>) {
        Ok(value)
    }
}

impl FromNative<Vec<u8>> for Vec<u8> {
    /// A `Vec<u8>` is its own protobuf form.
    open spec fn from_native_spec(value: Vec<u8>, wire: Vec<u8>) -> bool {
        wire == value
    }

    fn from_native(value: Vec<u8>) -> (wire: Vec<u8>) {
        value
    }
}

impl TryFromProto<()> for () {
    /// A unit value is its own native form.
    open spec fn try_from_proto_spec(value: (), native: Result<(), ProstConvertError>) -> bool {
        native matches Ok(found) && found == value
    }

    fn try_from_proto(value: ()) -> (native: Result<(), ProstConvertError>) {
        Ok(value)
    }
}

impl FromNative<()> for () {
    /// A unit value is its own protobuf form.
    open spec fn from_native_spec(value: (), wire: ()) -> bool {
        wire == value
    }

    fn from_native(value: ()) -> (wire: ()) {
        value
    }
}

// We can't directly define u16 in proto
impl TryFromProto<u32> for u16 {
    /// A value in the range of `u16` converts to itself; any other is an
    /// integer conversion error.
    open spec fn try_from_proto_spec(value: u32, native: Result<u16, ProstConvertError>) -> bool {
        if u16::MIN <= value <= u16::MAX {
            native matches Ok(found) && found == value
        } else {
            native matches Err(error) && error is TryFromIntError
        }
    }

    fn try_from_proto(value: u32) -> (native: Result<u16, ProstConvertError>) {
        match u16::try_from(value) {
            Ok(found) => Ok(found),
            Err(error) => Err(ProstConvertError::from(error)),
        }
    }
}

impl FromNative<u16> for u32 {
    /// The protobuf form has the same value.
    open spec fn from_native_spec(value: u16, wire: u32) -> bool {
        wire == value
    }

    fn from_native(value: u16) -> (wire: u32) {
        value.into()
    }
}

// We can't directly define u8 in proto
impl TryFromProto<u32> for u8 {
    /// A value in the range of `u8` converts to itself; any other is an
    /// integer conversion error.
    open spec fn try_from_proto_spec(value: u32, native: Result<u8, ProstConvertError>) -> bool {
        if u8::MIN <= value <= u8::MAX {
            native matches Ok(found) && found == value
        } else {
            native matches Err(error) && error is TryFromIntError
        }
    }

    fn try_from_proto(value: u32) -> (native: Result<u8, ProstConvertError>) {
        match u8::try_from(value) {
            Ok(found) => Ok(found),
            Err(error) => Err(ProstConvertError::from(error)),
        }
    }
}

impl FromNative<u8> for u32 {
    /// The protobuf form has the same value.
    open spec fn from_native_spec(value: u8, wire: u32) -> bool {
        wire == value
    }

    fn from_native(value: u8) -> (wire: u32) {
        value.into()
    }
}

// We can't directly define i16 in proto
impl TryFromProto<i32> for i16 {
    /// A value in the range of `i16` converts to itself; any other is an
    /// integer conversion error.
    open spec fn try_from_proto_spec(value: i32, native: Result<i16, ProstConvertError>) -> bool {
        if i16::MIN <= value <= i16::MAX {
            native matches Ok(found) && found == value
        } else {
            native matches Err(error) && error is TryFromIntError
        }
    }

    fn try_from_proto(value: i32) -> (native: Result<i16, ProstConvertError>) {
        match i16::try_from(value) {
            Ok(found) => Ok(found),
            Err(error) => Err(ProstConvertError::from(error)),
        }
    }
}

impl FromNative<i16> for i32 {
    /// The protobuf form has the same value.
    open spec fn from_native_spec(value: i16, wire: i32) -> bool {
        wire == value
    }

    fn from_native(value: i16) -> (wire: i32) {
        value.into()
    }
}

// We can't directly define i8 in proto
impl TryFromProto<i32> for i8 {
    /// A value in the range of `i8` converts to itself; any other is an
    /// integer conversion error.
    open spec fn try_from_proto_spec(value: i32, native: Result<i8, ProstConvertError>) -> bool {
        if i8::MIN <= value <= i8::MAX {
            native matches Ok(found) && found == value
        } else {
            native matches Err(error) && error is TryFromIntError
        }
    }

    fn try_from_proto(value: i32) -> (native: Result<i8, ProstConvertError>) {
        match i8::try_from(value) {
            Ok(found) => Ok(found),
            Err(error) => Err(ProstConvertError::from(error)),
        }
    }
}

impl FromNative<i8> for i32 {
    /// The protobuf form has the same value.
    open spec fn from_native_spec(value: i8, wire: i32) -> bool {
        wire == value
    }

    fn from_native(value: i8) -> (wire: i32) {
        value.into()
    }
}

} // verus!
