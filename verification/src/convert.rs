//! Traits for conversions between native and proto types.

use vstd::prelude::*;
use vstd::std_specs::convert::FromSpecImpl;

verus! {

/// The error type of the `uuid` crate.
#[verifier::external_type_specification]
#[verifier::external_body]
pub struct ExUuidError(uuid::Error);

/// The error type of the `anyhow` crate.
#[verifier::external_type_specification]
#[verifier::external_body]
pub struct ExAnyhowError(anyhow::Error);

/// Why a protobuf value has no native form.
#[allow(missing_docs)]
#[derive(Debug)]
pub enum ProstConvertError {
    /// prost struct miss a required field
    MissingRequiredField,
    /// infallible
    Infallible(std::convert::Infallible),
    /// invalid ip address
    AddrParseError,
    /// invalid uuid address
    UuidEroor(uuid::Error),
    /// int convertion error
    TryFromIntError(std::num::TryFromIntError),
    /// try to parse a type and failed
    TypeParseError(anyhow::Error),
}

impl From<std::convert::Infallible> for ProstConvertError {
    /// What cannot fail becomes the conversion error that carries it.
    fn from(error: std::convert::Infallible) -> (converted: Self) {
        ProstConvertError::Infallible(error)
    }
}

impl FromSpecImpl<std::convert::Infallible> for ProstConvertError {
    open spec fn obeys_from_spec() -> bool {
        true
    }

    open spec fn from_spec(error: std::convert::Infallible) -> Self {
        ProstConvertError::Infallible(error)
    }
}

impl From<uuid::Error> for ProstConvertError {
    /// A refused identifier becomes the conversion error that carries it.
    fn from(error: uuid::Error) -> (converted: Self) {
        ProstConvertError::UuidEroor(error)
    }
}

impl FromSpecImpl<uuid::Error> for ProstConvertError {
    open spec fn obeys_from_spec() -> bool {
        true
    }

    open spec fn from_spec(error: uuid::Error) -> Self {
        ProstConvertError::UuidEroor(error)
    }
}

impl From<std::num::TryFromIntError> for ProstConvertError {
    /// An integer out of range becomes the conversion error that carries it.
    fn from(error: std::num::TryFromIntError) -> (converted: Self) {
        ProstConvertError::TryFromIntError(error)
    }
}

impl FromSpecImpl<std::num::TryFromIntError> for ProstConvertError {
    open spec fn obeys_from_spec() -> bool {
        true
    }

    open spec fn from_spec(error: std::num::TryFromIntError) -> Self {
        ProstConvertError::TryFromIntError(error)
    }
}

impl From<anyhow::Error> for ProstConvertError {
    /// A failure to parse a type becomes the conversion error that carries it.
    fn from(error: anyhow::Error) -> (converted: Self) {
        ProstConvertError::TypeParseError(error)
    }
}

impl FromSpecImpl<anyhow::Error> for ProstConvertError {
    open spec fn obeys_from_spec() -> bool {
        true
    }

    open spec fn from_spec(error: anyhow::Error) -> Self {
        ProstConvertError::TypeParseError(error)
    }
}

/// Used to do value-to-value conversions while consuming the input value. It
/// is the reciprocal of [`IntoProto`].
///
/// One should always prefer implementing `FromNative` over [`IntoProto`]
/// because implementing `FromNative` automatically provides one with an
/// implementation of [`IntoProto`] thanks to the blanket implementation in
/// this crate.
///
/// This can't failed because every prost type is just a subset of the native
/// one.
pub trait FromNative<N>: Sized {
    /// Whether `wire` is the protobuf form of `value`. An implementation
    /// that does not say promises nothing.
    open spec fn from_native_spec(value: N, wire: Self) -> bool {
        true
    }

    /// Performs the conversion.
    fn from_native(value: N) -> (wire: Self)
        ensures
            Self::from_native_spec(value, wire),
    ;
}

/// A value-to-value conversion that consumes the input value. The opposite
/// of [`FromNative`].
///
/// One should avoid implementing `IntoProto` and implement [`FromNative`]
/// instead.
pub trait IntoProto<P>: Sized {
    /// Whether `wire` is the protobuf form of `self`. An implementation
    /// that does not say promises nothing.
    open spec fn into_proto_spec(self, wire: P) -> bool {
        true
    }

    /// Performs the conversion.
    fn into_proto(self) -> (wire: P)
        ensures
            self.into_proto_spec(wire),
    ;
}

/// Simple and safe type conversions that may fail in a controlled way under
/// some circumstances. It is the reciprocal of [`TryIntoNative`].
///
/// This is useful when you are doing a type conversion that may trivially
/// succeed but may also need special handling. For example, the proto struct
/// may have an `Option` field that is required in the native side.
pub trait TryFromProto<P>: Sized {
    /// Whether `native` is what the conversion of `value` gives: the native
    /// form, or the reason why there is none. An implementation that does
    /// not say promises nothing.
    open spec fn try_from_proto_spec(value: P, native: Result<Self, ProstConvertError>) -> bool {
        true
    }

    /// Performs the conversion.
    fn try_from_proto(value: P) -> (native: Result<Self, ProstConvertError>)
        ensures
            Self::try_from_proto_spec(value, native),
    ;
}

/// An attempted conversion that consumes `self`, which may or may not be
/// expensive.
///
/// Library authors should usually not directly implement this trait, but
/// should prefer implementing the [`TryFromProto`] trait, which offers
/// greater flexibility and provides an equivalent `TryIntoNative`
/// implementation for free, thanks to a blanket implementation in this
/// crate.
pub trait TryIntoNative<N>: Sized {
    /// Whether `native` is what the conversion of `self` gives. An
    /// implementation that does not say promises nothing.
    open spec fn try_into_native_spec(self, native: Result<N, ProstConvertError>) -> bool {
        true
    }

    /// Performs the conversion.
    fn try_into_native(self) -> (native: Result<N, ProstConvertError>)
        ensures
            self.try_into_native_spec(native),
    ;
}

// `TryFromProto` implies `TryIntoNative`.
impl<T, U> TryIntoNative<U> for T where U: TryFromProto<T> {
    open spec fn try_into_native_spec(self, native: Result<U, ProstConvertError>) -> bool {
        U::try_from_proto_spec(self, native)
    }

    fn try_into_native(self) -> (native: Result<U, ProstConvertError>) {
        U::try_from_proto(self)
    }
}

// `FromNative` implies `IntoProto`.
impl<T, U> IntoProto<U> for T where U: FromNative<T> {
    open spec fn into_proto_spec(self, wire: U) -> bool {
        U::from_native_spec(self, wire)
    }

    fn into_proto(self) -> (wire: U) {
        U::from_native(self)
    }
}

// If the field in proto is optional but not the native one, we considered it required.
// If a type T can be created from U, so it can be created from an `Option<U>`.
impl<T, U> TryFromProto<Option<U>> for T where T: TryFromProto<U> {
    /// A filled slot converts as what it holds; an empty slot is a missing
    /// required field.
    open spec fn try_from_proto_spec(value: Option<U>, native: Result<T, ProstConvertError>) -> bool {
        match value {
            Some(inner) => <T as TryFromProto<U>>::try_from_proto_spec(inner, native),
            None => native matches Err(error) && error is MissingRequiredField,
        }
    }

    fn try_from_proto(value: Option<U>) -> (native: Result<T, ProstConvertError>) {
        match value {
            Some(value) => value.try_into_native(),
            None => Err(ProstConvertError::MissingRequiredField),
        }
    }
}

// If the native type T can be easily convert into an `Option<T>`
// if required by the proto.
impl<T, U> FromNative<U> for Option<T> where T: FromNative<U> {
    /// The slot is filled with the protobuf form of the value.
    open spec fn from_native_spec(value: U, wire: Option<T>) -> bool {
        wire matches Some(inner) && T::from_native_spec(value, inner)
    }

    fn from_native(value: U) -> (wire: Option<T>) {
        Some(value.into_proto())
    }
}

/// Whether an element has a native form.
pub open spec fn converts<T: TryFromProto<U>, U>(value: U) -> bool {
    exists|found: T| T::try_from_proto_spec(value, Ok(found))
}

// Make this trait usable recursively on vectors.
impl<T, U> TryFromProto<Vec<U>> for Vec<T> where T: TryFromProto<U> {
    /// On success the result has the native form of every element, in
    /// order. A failure is that of an element all of whose predecessors
    /// have a native form.
    open spec fn try_from_proto_spec(value: Vec<U>, native: Result<Vec<T>, ProstConvertError>) -> bool {
        match native {
            Ok(found) => {
                &&& found@.len() == value@.len()
                &&& forall|i: int|
                    0 <= i < value@.len() ==> T::try_from_proto_spec(
                        #[trigger] value@[i],
                        Ok(found@[i]),
                    )
            },
            Err(error) => exists|at: int|
                {
                    &&& 0 <= at < value@.len()
                    &&& T::try_from_proto_spec(#[trigger] value@[at], Err(error))
                    &&& forall|i: int| 0 <= i < at ==> converts::<T, U>(#[trigger] value@[i])
                },
        }
    }

    fn try_from_proto(value: Vec<U>) -> (native: Result<Vec<T>, ProstConvertError>) {
        let ghost all = value@;
        let mut native: Vec<T> = Vec::with_capacity(value.len());
        for element in it: value.into_iter()
            invariant
                it.seq() == all,
                native@.len() == it.index(),
                forall|i: int|
                    0 <= i < it.index() ==> T::try_from_proto_spec(
                        #[trigger] all[i],
                        Ok(native@[i]),
                    ),
        {
            let ghost at = it.index() as int;
            match element.try_into_native() {
                Ok(found) => native.push(found),
                Err(error) => {
                    assert(T::try_from_proto_spec(all[at], Err(error)));
                    assert forall|i: int| 0 <= i < at implies converts::<T, U>(
                        #[trigger] all[i],
                    ) by {
                        assert(T::try_from_proto_spec(all[i], Ok(native@[i])));
                    }
                    return Err(error);
                },
            }
        }
        Ok(native)
    }
}

// Make this trait usable recursively on vectors.
impl<T, U> FromNative<Vec<U>> for Vec<T> where T: FromNative<U> {
    /// The result has the protobuf form of every element, in order.
    open spec fn from_native_spec(value: Vec<U>, wire: Vec<T>) -> bool {
        &&& wire@.len() == value@.len()
        &&& forall|i: int|
            0 <= i < value@.len() ==> T::from_native_spec(#[trigger] value@[i], wire@[i])
    }

    fn from_native(value: Vec<U>) -> (wire: Vec<T>) {
        let ghost all = value@;
        let mut proto: Vec<T> = Vec::new();
        for element in it: value.into_iter()
            invariant
                it.seq() == all,
                proto@.len() == it.index(),
                forall|i: int|
                    0 <= i < it.index() ==> T::from_native_spec(#[trigger] all[i], proto@[i]),
        {
            proto.push(element.into_proto());
        }
        proto
    }
}

} // verus!
