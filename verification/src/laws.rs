//! What holds of the conversions taken together: a native value that is
//! converted to protobuf and back is the value again.

use crate::convert::{FromNative, ProstConvertError, TryFromProto};
use crate::container::FieldView;
use crate::expand::{discriminant, field_rule, FieldRule};
use crate::maps::{map_from_native_spec, map_try_from_proto_spec};
use vstd::prelude::*;

verus! {

/// Whether every native value of the type `N` comes back from its protobuf
/// form of the type `W`: whatever protobuf form the conversion gives it,
/// the conversion back succeeds with a value that is the `same`.
pub open spec fn round_trips<N, W>(same: spec_fn(N, N) -> bool) -> bool where
    W: FromNative<N>,
    N: TryFromProto<W>,
 {
    forall|value: N, wire: W, native: Result<N, ProstConvertError>|
        #![trigger W::from_native_spec(value, wire), N::try_from_proto_spec(wire, native)]
        W::from_native_spec(value, wire) && N::try_from_proto_spec(wire, native) ==> (
        native matches Ok(found) && same(value, found))
}

/// Two values are the same when they are equal.
pub open spec fn identical<N>() -> spec_fn(N, N) -> bool {
    |left: N, right: N| left == right
}

/// Two vectors are the same when they are as long and hold the same
/// elements in order.
pub open spec fn same_elements<N>(same: spec_fn(N, N) -> bool) -> spec_fn(Vec<N>, Vec<N>) -> bool {
    |left: Vec<N>, right: Vec<N>|
        left@.len() == right@.len() && forall|i: int|
            0 <= i < left@.len() ==> same(#[trigger] left@[i], right@[i])
}

/// The scalar types of protobuf come back as they went.
pub proof fn lemma_scalars_round_trip()
    ensures
        round_trips::<i32, i32>(identical()),
        round_trips::<i64, i64>(identical()),
        round_trips::<u32, u32>(identical()),
        round_trips::<u64, u64>(identical()),
        round_trips::<bool, bool>(identical()),
        round_trips::<String, String>(identical()),
        round_trips::<Vec<u8>, Vec<u8>>(identical()),
        round_trips::<(), ()>(identical()),
{
}

/// The narrow integers that protobuf carries in wider ones come back as
/// they went.
pub proof fn lemma_narrow_integers_round_trip()
    ensures
        round_trips::<u16, u32>(identical()),
        round_trips::<u8, u32>(identical()),
        round_trips::<i16, i32>(identical()),
        round_trips::<i8, i32>(identical()),
{
}

/// An identifier comes back from its text as it went.
pub proof fn lemma_uuid_round_trips()
    ensures
        round_trips::<uuid::Uuid, String>(identical()),
{
}

/// Where a value comes back from a protobuf type, it comes back from an
/// optional slot of that type as well: required native data survives the
/// optional fields of protobuf.
pub proof fn lemma_optional_slot_round_trips<N, W>(same: spec_fn(N, N) -> bool) where
    W: FromNative<N>,
    N: TryFromProto<W>,

    requires
        round_trips::<N, W>(same),
    ensures
        round_trips::<N, Option<W>>(same),
{
    assert forall|value: N, wire: Option<W>, native: Result<N, ProstConvertError>|
        #![trigger
            <Option<W> as FromNative<N>>::from_native_spec(value, wire),
            <N as TryFromProto<Option<W>>>::try_from_proto_spec(wire, native)
        ]
        <Option<W> as FromNative<N>>::from_native_spec(value, wire) && <N as TryFromProto<
            Option<W>,
        >>::try_from_proto_spec(wire, native) implies (native matches Ok(found) && same(
        value,
        found,
    )) by {
        let inner = wire->Some_0;
        assert(W::from_native_spec(value, inner));
        assert(<N as TryFromProto<W>>::try_from_proto_spec(inner, native));
    }
}

/// Where the elements come back, vectors of them come back.
pub proof fn lemma_vectors_round_trip<N, W>(same: spec_fn(N, N) -> bool) where
    W: FromNative<N>,
    N: TryFromProto<W>,

    requires
        round_trips::<N, W>(same),
    ensures
        round_trips::<Vec<N>, Vec<W>>(same_elements(same)),
{
    assert forall|value: Vec<N>, wire: Vec<W>, native: Result<Vec<N>, ProstConvertError>|
        #![trigger
            <Vec<W> as FromNative<Vec<N>>>::from_native_spec(value, wire),
            <Vec<N> as TryFromProto<Vec<W>>>::try_from_proto_spec(wire, native)
        ]
        <Vec<W> as FromNative<Vec<N>>>::from_native_spec(value, wire) && <Vec<
            N,
        > as TryFromProto<Vec<W>>>::try_from_proto_spec(wire, native) implies (
    native matches Ok(found) && same_elements(same)(value, found)) by {
        match native {
            Ok(found) => {
                assert forall|i: int| 0 <= i < value@.len() implies same(
                    #[trigger] value@[i],
                    found@[i],
                ) by {
                    assert(W::from_native_spec(value@[i], wire@[i]));
                    assert(N::try_from_proto_spec(wire@[i], Ok(found@[i])));
                }
            },
            Err(error) => {
                let at = choose|at: int|
                    0 <= at < wire@.len() && N::try_from_proto_spec(
                        #[trigger] wire@[at],
                        Err(error),
                    );
                assert(W::from_native_spec(value@[at], wire@[at]));
                assert(N::try_from_proto_spec(wire@[at], Err(error)));
            },
        }
    }
}

/// Where the values come back, maps of them come back: whatever the type
/// of the keys, a map that is converted to protobuf value by value and back
/// has the same keys, each with the same value.
pub proof fn lemma_maps_round_trip<K, N, W>(
    same: spec_fn(N, N) -> bool,
    value: Map<K, N>,
    wire: Map<K, W>,
    native: Result<Map<K, N>, ProstConvertError>,
) where W: FromNative<N>, N: TryFromProto<W>
    requires
        round_trips::<N, W>(same),
        map_from_native_spec::<K, W, N>(value, wire),
        map_try_from_proto_spec::<K, N, W>(wire, native),
    ensures
        native matches Ok(found) && found.dom() == value.dom() && forall|key: K| #[trigger]
            value.contains_key(key) ==> same(value[key], found[key]),
{
    match native {
        Ok(found) => {
            assert forall|key: K| #[trigger] value.contains_key(key) implies same(
                value[key],
                found[key],
            ) by {
                assert(wire.contains_key(key));
                assert(W::from_native_spec(value[key], wire[key]));
                assert(N::try_from_proto_spec(wire[key], Ok(found[key])));
            }
        },
        Err(error) => {
            let key = choose|key: K| #[trigger]
                wire.contains_key(key) && N::try_from_proto_spec(wire[key], Err(error));
            assert(value.contains_key(key));
            assert(W::from_native_spec(value[key], wire[key]));
            assert(N::try_from_proto_spec(wire[key], Err(error)));
        },
    }
}

/// An empty slot where the native side requires a value is a missing
/// required field: the conversion fails and gives no value.
pub proof fn lemma_missing_field<N, W>(native: Result<N, ProstConvertError>) where
    N: TryFromProto<W>,

    requires
        <N as TryFromProto<Option<W>>>::try_from_proto_spec(None, native),
    ensures
        native matches Err(error) && error is MissingRequiredField,
{
}

/// What the initialiser of a field that is optional on both sides does on
/// the way to protobuf: the conversion is applied to what the option holds.
pub open spec fn kept_option_from_native_spec<N, W>(value: Option<N>, wire: Option<W>) -> bool where
    W: FromNative<N>,
 {
    match value {
        Some(inner) => wire matches Some(converted) && W::from_native_spec(inner, converted),
        None => wire is None,
    }
}

/// What the initialiser of a field that is optional on both sides does on
/// the way back: the conversion is applied to what the slot holds, and an
/// empty slot gives an empty option.
pub open spec fn kept_option_try_from_proto_spec<N, W>(
    wire: Option<W>,
    native: Result<Option<N>, ProstConvertError>,
) -> bool where N: TryFromProto<W> {
    match wire {
        Some(inner) => match native {
            Ok(found) => found matches Some(converted) && N::try_from_proto_spec(
                inner,
                Ok(converted),
            ),
            Err(error) => N::try_from_proto_spec(inner, Err(error)),
        },
        None => native matches Ok(found) && found is None,
    }
}

/// Two options are the same when both are empty or both hold the same.
pub open spec fn same_option<N>(same: spec_fn(N, N) -> bool) -> spec_fn(
    Option<N>,
    Option<N>,
) -> bool {
    |left: Option<N>, right: Option<N>|
        match (left, right) {
            (Some(a), Some(b)) => same(a, b),
            (None, None) => true,
            _ => false,
        }
}

/// A field that is optional on both sides never fails for being empty: an
/// empty slot converts, and converts to an empty option.
pub proof fn lemma_absence_is_kept<N, W>(native: Result<Option<N>, ProstConvertError>) where
    N: TryFromProto<W>,

    requires
        kept_option_try_from_proto_spec::<N, W>(None, native),
    ensures
        native matches Ok(found) && found is None,
{
}

/// Where a value comes back, a field of it that is optional on both sides
/// comes back, empty or not.
pub proof fn lemma_kept_option_round_trips<N, W>(
    same: spec_fn(N, N) -> bool,
    value: Option<N>,
    wire: Option<W>,
    native: Result<Option<N>, ProstConvertError>,
) where W: FromNative<N>, N: TryFromProto<W>
    requires
        round_trips::<N, W>(same),
        kept_option_from_native_spec::<N, W>(value, wire),
        kept_option_try_from_proto_spec::<N, W>(wire, native),
    ensures
        native matches Ok(found) && same_option(same)(value, found),
{
    match value {
        Some(inner) => {
            let converted = wire->Some_0;
            assert(W::from_native_spec(inner, converted));
            match native {
                Ok(found) => {
                    assert(N::try_from_proto_spec(converted, Ok(found->Some_0)));
                },
                Err(error) => {
                    assert(N::try_from_proto_spec(converted, Err(error)));
                },
            }
        },
        None => {},
    }
}

/// The position of the variant that the conversion of a flat enumeration
/// of `count` variants reads from an integer: the first variant that has
/// this integer, if any has.
pub open spec fn variant_of_integer(count: nat, value: int) -> Option<int>
    decreases count,
{
    if count == 0 {
        None
    } else {
        match variant_of_integer((count - 1) as nat, value) {
            Some(position) => Some(position),
            None => if discriminant(count - 1) == value {
                Some(count - 1)
            } else {
                None
            },
        }
    }
}

/// The integer of a variant is its position in the declaration, counted
/// from zero, as long as the position fits in an `i32`.
pub proof fn lemma_discriminant_is_position(position: int)
    requires
        0 <= position <= i32::MAX,
    ensures
        discriminant(position) == position,
{
}

/// Reading an integer is the exact inverse of giving a variant its
/// integer: in an enumeration of `count` variants, no more than an `i32`
/// can number, the integers from zero up to `count` read as the variant at
/// that position and every other integer reads as none.
pub proof fn lemma_integer_reads_back(count: nat, value: int)
    requires
        count <= i32::MAX + 1,
    ensures
        variant_of_integer(count, value) == if 0 <= value < count {
            Some(value)
        } else {
            None
        },
    decreases count,
{
    if count > 0 {
        lemma_integer_reads_back((count - 1) as nat, value);
        lemma_discriminant_is_position(count - 1);
    }
}

/// An integer that no variant has reads as none, whatever the number of
/// variants: the conversion then fails.
pub proof fn lemma_unknown_integer_reads_as_none(count: nat, value: int)
    requires
        forall|position: int| 0 <= position < count ==> discriminant(position) != value,
    ensures
        variant_of_integer(count, value) is None,
    decreases count,
{
    if count > 0 {
        lemma_unknown_integer_reads_as_none((count - 1) as nat, value);
    }
}

/// An integer that a variant has reads as a variant that has it.
pub proof fn lemma_known_integer_reads_as_its_variant(count: nat, value: int, position: int)
    requires
        0 <= position < count,
        discriminant(position) == value,
    ensures
        variant_of_integer(count, value) matches Some(found) && 0 <= found <= position
            && discriminant(found) == value,
    decreases count,
{
    if position < count - 1 {
        lemma_known_integer_reads_as_its_variant((count - 1) as nat, value, position);
    } else {
        match variant_of_integer((count - 1) as nat, value) {
            Some(found) => {
                lemma_reading_is_among_the_variants((count - 1) as nat, value);
            },
            None => {},
        }
    }
}

/// What an integer reads as is a variant that has this integer.
pub proof fn lemma_reading_is_among_the_variants(count: nat, value: int)
    ensures
        variant_of_integer(count, value) matches Some(found) ==> 0 <= found < count
            && discriminant(found) == value,
    decreases count,
{
    if count > 0 {
        lemma_reading_is_among_the_variants((count - 1) as nat, value);
    }
}

/// What the conversion that is generated for the unnamed fields of a
/// variant does on the way to protobuf: every position is converted by its
/// own conversion, and keeps its place.
pub open spec fn positions_from_native_spec<N, W>(value: Seq<N>, wire: Seq<W>) -> bool where
    W: FromNative<N>,
 {
    &&& wire.len() == value.len()
    &&& forall|i: int| 0 <= i < value.len() ==> W::from_native_spec(#[trigger] value[i], wire[i])
}

/// What the conversion that is generated for the unnamed fields of a
/// variant does on the way back: on success every position has its native
/// form, in its place; a failure is that of the first position that fails.
pub open spec fn positions_try_from_proto_spec<N, W>(
    wire: Seq<W>,
    native: Result<Seq<N>, ProstConvertError>,
) -> bool where N: TryFromProto<W> {
    match native {
        Ok(found) => {
            &&& found.len() == wire.len()
            &&& forall|i: int|
                0 <= i < wire.len() ==> N::try_from_proto_spec(#[trigger] wire[i], Ok(found[i]))
        },
        Err(error) => exists|at: int|
            0 <= at < wire.len() && N::try_from_proto_spec(#[trigger] wire[at], Err(error)),
    }
}

/// Where the positions come back, a variant with one or with several
/// unnamed fields comes back, each value at its own position.
pub proof fn lemma_unnamed_fields_round_trip<N, W>(
    same: spec_fn(N, N) -> bool,
    value: Seq<N>,
    wire: Seq<W>,
    native: Result<Seq<N>, ProstConvertError>,
) where W: FromNative<N>, N: TryFromProto<W>
    requires
        round_trips::<N, W>(same),
        positions_from_native_spec::<N, W>(value, wire),
        positions_try_from_proto_spec::<N, W>(wire, native),
    ensures
        native matches Ok(found) && found.len() == value.len() && forall|i: int|
            0 <= i < value.len() ==> same(#[trigger] value[i], found[i]),
{
    match native {
        Ok(found) => {
            assert forall|i: int| 0 <= i < value.len() implies same(
                #[trigger] value[i],
                found[i],
            ) by {
                assert(W::from_native_spec(value[i], wire[i]));
                assert(N::try_from_proto_spec(wire[i], Ok(found[i])));
            }
        },
        Err(error) => {
            let at = choose|at: int|
                0 <= at < wire.len() && N::try_from_proto_spec(#[trigger] wire[at], Err(error));
            assert(W::from_native_spec(value[at], wire[at]));
            assert(N::try_from_proto_spec(wire[at], Err(error)));
        },
    }
}

/// The rules of the fields of a struct, in declaration order.
pub open spec fn rules_of(fields: Seq<FieldView>) -> Seq<FieldRule> {
    fields.map_values(|field: FieldView| field_rule(field))
}

/// What the initialiser that is generated for a field does on the way to
/// protobuf, by the field's rule. The native value of a field is written
/// as an option: that of a required field is always filled.
pub open spec fn field_from_native_spec<N, W>(
    rule: FieldRule,
    value: Option<N>,
    wire: Option<W>,
) -> bool where W: FromNative<N> {
    match rule {
        FieldRule::Delegate => value matches Some(inner) && <Option<W> as FromNative<
            N,
        >>::from_native_spec(inner, wire),
        FieldRule::KeepOptional => kept_option_from_native_spec::<N, W>(value, wire),
    }
}

/// What the initialiser that is generated for a field does on the way
/// back, by the field's rule.
pub open spec fn field_try_from_proto_spec<N, W>(
    rule: FieldRule,
    wire: Option<W>,
    native: Result<Option<N>, ProstConvertError>,
) -> bool where N: TryFromProto<W> {
    match rule {
        FieldRule::Delegate => match native {
            Ok(found) => found matches Some(inner) && <N as TryFromProto<
                Option<W>,
            >>::try_from_proto_spec(wire, Ok(inner)),
            Err(error) => <N as TryFromProto<Option<W>>>::try_from_proto_spec(wire, Err(error)),
        },
        FieldRule::KeepOptional => kept_option_try_from_proto_spec::<N, W>(wire, native),
    }
}

/// Whether the conversion of a field back can fail with this error.
pub open spec fn field_fails_with<N, W>(
    rule: FieldRule,
    wire: Option<W>,
    error: ProstConvertError,
) -> bool where N: TryFromProto<W> {
    field_try_from_proto_spec::<N, W>(rule, wire, Err(error))
}

/// Whether the conversion of a field back can fail on a protobuf value.
pub open spec fn field_can_fail<N, W>(rule: FieldRule, wire: Option<W>) -> bool where
    N: TryFromProto<W>,
 {
    exists|error: ProstConvertError| #[trigger]
        field_fails_with::<N, W>(rule, wire, error)
}

/// What the conversion that is generated for a struct does on the way to
/// protobuf: every field is converted by its rule.
pub open spec fn struct_from_native_spec<N, W>(
    rules: Seq<FieldRule>,
    value: Seq<Option<N>>,
    wire: Seq<Option<W>>,
) -> bool where W: FromNative<N> {
    &&& value.len() == rules.len()
    &&& wire.len() == rules.len()
    &&& forall|i: int|
        0 <= i < rules.len() ==> field_from_native_spec::<N, W>(
            #[trigger] rules[i],
            value[i],
            wire[i],
        )
}

/// What the conversion that is generated for a struct does on the way
/// back: it succeeds with the native form of every field, or fails with the
/// failure of one of the fields and gives no struct.
pub open spec fn struct_try_from_proto_spec<N, W>(
    rules: Seq<FieldRule>,
    wire: Seq<Option<W>>,
    native: Result<Seq<Option<N>>, ProstConvertError>,
) -> bool where N: TryFromProto<W> {
    &&& wire.len() == rules.len()
    &&& match native {
        Ok(found) => {
            &&& found.len() == rules.len()
            &&& forall|i: int|
                0 <= i < rules.len() ==> field_try_from_proto_spec::<N, W>(
                    #[trigger] rules[i],
                    wire[i],
                    Ok(found[i]),
                )
        },
        Err(error) => exists|at: int|
            0 <= at < rules.len() && field_try_from_proto_spec::<N, W>(
                #[trigger] rules[at],
                wire[at],
                Err(error),
            ),
    }
}

/// Where the values of the fields come back, a struct comes back: every
/// field of it, plain or optional, has the same value again.
pub proof fn lemma_struct_round_trips<N, W>(
    fields: Seq<FieldView>,
    same: spec_fn(N, N) -> bool,
    value: Seq<Option<N>>,
    wire: Seq<Option<W>>,
    native: Result<Seq<Option<N>>, ProstConvertError>,
) where W: FromNative<N>, N: TryFromProto<W>
    requires
        round_trips::<N, W>(same),
        struct_from_native_spec::<N, W>(rules_of(fields), value, wire),
        struct_try_from_proto_spec::<N, W>(rules_of(fields), wire, native),
    ensures
        native matches Ok(found) && found.len() == value.len() && forall|i: int|
            0 <= i < value.len() ==> same_option(same)(#[trigger] value[i], found[i]),
{
    let rules = rules_of(fields);
    lemma_optional_slot_round_trips::<N, W>(same);
    match native {
        Ok(found) => {
            assert forall|i: int| 0 <= i < value.len() implies same_option(same)(
                #[trigger] value[i],
                found[i],
            ) by {
                assert(field_from_native_spec::<N, W>(rules[i], value[i], wire[i]));
                assert(field_try_from_proto_spec::<N, W>(rules[i], wire[i], Ok(found[i])));
                lemma_field_round_trips::<N, W>(rules[i], same, value[i], wire[i], Ok(found[i]));
            }
        },
        Err(error) => {
            let at = choose|at: int|
                0 <= at < rules.len() && field_try_from_proto_spec::<N, W>(
                    #[trigger] rules[at],
                    wire[at],
                    Err(error),
                );
            assert(field_from_native_spec::<N, W>(rules[at], value[at], wire[at]));
            lemma_field_round_trips::<N, W>(rules[at], same, value[at], wire[at], Err(error));
        },
    }
}

/// Where a value comes back, a field of it comes back, whatever its rule.
pub proof fn lemma_field_round_trips<N, W>(
    rule: FieldRule,
    same: spec_fn(N, N) -> bool,
    value: Option<N>,
    wire: Option<W>,
    native: Result<Option<N>, ProstConvertError>,
) where W: FromNative<N>, N: TryFromProto<W>
    requires
        round_trips::<N, W>(same),
        field_from_native_spec::<N, W>(rule, value, wire),
        field_try_from_proto_spec::<N, W>(rule, wire, native),
    ensures
        native matches Ok(found) && same_option(same)(value, found),
{
    match rule {
        FieldRule::Delegate => {
            lemma_optional_slot_round_trips::<N, W>(same);
            let inner = value->Some_0;
            match native {
                Ok(found) => {
                    assert(<N as TryFromProto<Option<W>>>::try_from_proto_spec(
                        wire,
                        Ok(found->Some_0),
                    ));
                },
                Err(error) => {
                    assert(<N as TryFromProto<Option<W>>>::try_from_proto_spec(
                        wire,
                        Err(error),
                    ));
                },
            }
        },
        FieldRule::KeepOptional => {
            lemma_kept_option_round_trips::<N, W>(same, value, wire, native);
        },
    }
}

/// A struct with a required field whose slot is empty has no native form:
/// where no other field can fail, the conversion fails with a missing
/// required field.
pub proof fn lemma_struct_misses_a_required_field<N, W>(
    fields: Seq<FieldView>,
    wire: Seq<Option<W>>,
    native: Result<Seq<Option<N>>, ProstConvertError>,
    at: int,
) where N: TryFromProto<W>
    requires
        struct_try_from_proto_spec::<N, W>(rules_of(fields), wire, native),
        0 <= at < fields.len(),
        field_rule(fields[at]) is Delegate,
        wire[at] is None,
        forall|i: int|
            0 <= i < fields.len() && i != at ==> !field_can_fail::<N, W>(
                #[trigger] rules_of(fields)[i],
                wire[i],
            ),
    ensures
        native matches Err(error) && error is MissingRequiredField,
{
    let rules = rules_of(fields);
    match native {
        Ok(found) => {
            assert(field_try_from_proto_spec::<N, W>(rules[at], wire[at], Ok(found[at])));
        },
        Err(error) => {
            let failed = choose|failed: int|
                0 <= failed < rules.len() && field_try_from_proto_spec::<N, W>(
                    #[trigger] rules[failed],
                    wire[failed],
                    Err(error),
                );
            if failed != at {
                assert(field_fails_with::<N, W>(rules[failed], wire[failed], error));
                assert(field_can_fail::<N, W>(rules[failed], wire[failed]));
            }
        },
    }
}

/// A struct never fails for the absence of a field that is optional on
/// both sides: where no other field can fail, the conversion succeeds and
/// the field is absent in the result.
pub proof fn lemma_struct_keeps_absence<N, W>(
    fields: Seq<FieldView>,
    wire: Seq<Option<W>>,
    native: Result<Seq<Option<N>>, ProstConvertError>,
    at: int,
) where N: TryFromProto<W>
    requires
        struct_try_from_proto_spec::<N, W>(rules_of(fields), wire, native),
        0 <= at < fields.len(),
        field_rule(fields[at]) is KeepOptional,
        wire[at] is None,
        forall|i: int|
            0 <= i < fields.len() && i != at ==> !field_can_fail::<N, W>(
                #[trigger] rules_of(fields)[i],
                wire[i],
            ),
    ensures
        native matches Ok(found) && found[at] is None,
{
    let rules = rules_of(fields);
    match native {
        Ok(found) => {
            assert(field_try_from_proto_spec::<N, W>(rules[at], wire[at], Ok(found[at])));
        },
        Err(error) => {
            let failed = choose|failed: int|
                0 <= failed < rules.len() && field_try_from_proto_spec::<N, W>(
                    #[trigger] rules[failed],
                    wire[failed],
                    Err(error),
                );
            if failed != at {
                assert(field_fails_with::<N, W>(rules[failed], wire[failed], error));
                assert(field_can_fail::<N, W>(rules[failed], wire[failed]));
            }
        },
    }
}

} // verus!
