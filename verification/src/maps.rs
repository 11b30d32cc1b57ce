//! Conversions of maps, value by value. Protobuf keys a map by an integer,
//! a boolean or a string, and the key is the same on both sides.

use crate::convert::{FromNative, IntoProto, ProstConvertError, TryFromProto, TryIntoNative};
use std::collections::hash_map::Keys;
use std::collections::HashMap;
use std::hash::Hash;
use vstd::prelude::*;
use vstd::std_specs::hash::*;
use vstd::std_specs::iter::IteratorSpec;

verus! {

/// Whether what is known of hash maps holds for maps keyed by `K`: the
/// keys hash and compare as the model of hash maps asks, and a clone of a
/// key is the key.
pub open spec fn keys_are_modelled<K: Clone>() -> bool {
    &&& obeys_key_model::<K>()
    &&& forall|key: K, copy: K| #[trigger] cloned::<K>(key, copy) ==> copy == key
}

/// Whether `wire` has the keys of `value`, each with the protobuf form of
/// its value.
pub open spec fn map_from_native_spec<K, T: FromNative<U>, U>(
    value: Map<K, U>,
    wire: Map<K, T>,
) -> bool {
    &&& wire.dom() == value.dom()
    &&& forall|key: K| #[trigger]
        value.contains_key(key) ==> T::from_native_spec(value[key], wire[key])
}

/// Whether `native` is what the conversion of a map gives: on success the
/// keys of `value`, each with the native form of its value; else the
/// failure of one of the values.
pub open spec fn map_try_from_proto_spec<K, T: TryFromProto<U>, U>(
    value: Map<K, U>,
    native: Result<Map<K, T>, ProstConvertError>,
) -> bool {
    match native {
        Ok(found) => {
            &&& found.dom() == value.dom()
            &&& forall|key: K| #[trigger]
                value.contains_key(key) ==> T::try_from_proto_spec(value[key], Ok(found[key]))
        },
        Err(error) => exists|key: K| #[trigger]
            value.contains_key(key) && T::try_from_proto_spec(value[key], Err(error)),
    }
}

/// The view of a conversion's outcome.
pub open spec fn outcome_view<K, T>(native: Result<HashMap<K, T>, ProstConvertError>) -> Result<
    Map<K, T>,
    ProstConvertError,
> {
    match native {
        Ok(found) => Ok(found@),
        Err(error) => Err(error),
    }
}

/// `Iterator::next` of the keys of a hash map: the first of the keys that
/// remain, which then remains no longer, or nothing once none remains.
#[verifier::external_body]
fn next_key<'a, K, V>(keys: &mut Keys<'a, K, V>) -> (key: Option<&'a K>)
    ensures
        match key {
            Some(found) => (*old(keys)).remaining().len() > 0 && found == (*old(
                keys,
            )).remaining()[0] && (*final(keys)).remaining() == (*old(
                keys,
            )).remaining().drop_first(),
            None => (*old(keys)).remaining().len() == 0 && (*final(keys)).remaining() == (*old(
                keys,
            )).remaining(),
        },
{
    keys.next()
}

/// The keys of a map, each once.
fn collect_keys<K: Clone, V>(map: &HashMap<K, V>) -> (keys: Vec<K>)
    ensures
        keys_are_modelled::<K>() ==> keys@.no_duplicates() && keys@.to_set() == map@.dom(),
{
    broadcast use vstd::std_specs::hash::group_hash_axioms;

    let mut keys: Vec<K> = Vec::new();
    let mut budget = map.len();
    let mut it = map.keys();
    let ghost all = it.remaining();
    proof {
        if keys_are_modelled::<K>() {
            assert(all == spec_keys_iter(map).remaining());
            assert(all.len() == map@.dom().len());
        }
    }
    while budget > 0
        invariant
            keys_are_modelled::<K>() ==> {
                &&& it.remaining() == all.skip(keys@.len() as int)
                &&& keys@.len() + budget == all.len()
                &&& forall|i: int| 0 <= i < keys@.len() ==> keys@[i] == *#[trigger] all[i]
            },
        decreases budget,
    {
        budget = budget - 1;
        let ghost seen = keys@.len() as int;
        match next_key(&mut it) {
            Some(key) => {
                let copy = key.clone();
                proof {
                    if keys_are_modelled::<K>() {
                        assert(cloned::<K>(*key, copy));
                        assert(all.skip(seen)[0] == all[seen]);
                        assert(all.skip(seen).drop_first() == all.skip(seen + 1));
                    }
                }
                keys.push(copy);
            },
            None => {
                assert(keys_are_modelled::<K>() ==> all.skip(seen).len() == all.len() - seen);
            },
        }
    }
    proof {
        if keys_are_modelled::<K>() {
            let plain = all.unref();
            assert(keys@ =~= plain);
            assert(plain.to_set() == map@.dom());
            assert(keys@.no_duplicates()) by {
                assert forall|i: int, j: int|
                    0 <= i < keys@.len() && 0 <= j < keys@.len() && i != j implies keys@[i]
                    != keys@[j] by {
                    assert(all[i] != all[j]);
                }
            }
        }
    }
    keys
}

/// Converts every value of a map to its protobuf form.
fn map_from_native<K: Clone + Eq + Hash, T: FromNative<U>, U>(value: HashMap<K, U>) -> (wire:
    HashMap<K, T>)
    ensures
        keys_are_modelled::<K>() ==> map_from_native_spec::<K, T, U>(value@, wire@),
{
    broadcast use vstd::std_specs::hash::group_hash_axioms;

    let ghost original = value@;
    let mut source = value;
    let keys = collect_keys(&source);
    let ghost order = keys@;
    let mut proto: HashMap<K, T> = HashMap::with_capacity(keys.len());
    for key in it: keys.into_iter()
        invariant
            it.seq() == order,
            original == value@,
            keys_are_modelled::<K>() ==> {
                &&& order.no_duplicates()
                &&& order.to_set() == original.dom()
                &&& source@ == original.remove_keys(order.take(it.index() as int).to_set())
                &&& proto@.dom() == order.take(it.index() as int).to_set()
                &&& forall|key: K| #[trigger]
                    proto@.contains_key(key) ==> T::from_native_spec(original[key], proto@[key])
            },
    {
        let ghost at = it.index() as int;
        let ghost done = order.take(at).to_set();
        proof {
            if keys_are_modelled::<K>() {
                lemma_next_key(original, order, at);
            }
        }
        match source.remove(&key) {
            Some(element) => {
                let converted: T = element.into_proto();
                proto.insert(key, converted);
            },
            None => {},
        }
        proof {
            if keys_are_modelled::<K>() {
                assert(source@ =~= original.remove_keys(order.take(at + 1).to_set()));
                assert(proto@.dom() =~= order.take(at + 1).to_set());
            }
        }
    }
    proof {
        if keys_are_modelled::<K>() {
            assert(order.take(order.len() as int) == order);
        }
    }
    proto
}

/// Converts every value of a map to its native form, or fails with the
/// first failure met.
fn map_try_from_proto<K: Clone + Eq + Hash, T: TryFromProto<U>, U>(value: HashMap<K, U>) -> (native:
    Result<HashMap<K, T>, ProstConvertError>)
    ensures
        keys_are_modelled::<K>() ==> map_try_from_proto_spec::<K, T, U>(
            value@,
            outcome_view(native),
        ),
{
    broadcast use vstd::std_specs::hash::group_hash_axioms;

    let ghost original = value@;
    let mut source = value;
    let keys = collect_keys(&source);
    let ghost order = keys@;
    let mut native: HashMap<K, T> = HashMap::with_capacity(keys.len());
    for key in it: keys.into_iter()
        invariant
            it.seq() == order,
            original == value@,
            keys_are_modelled::<K>() ==> {
                &&& order.no_duplicates()
                &&& order.to_set() == original.dom()
                &&& source@ == original.remove_keys(order.take(it.index() as int).to_set())
                &&& native@.dom() == order.take(it.index() as int).to_set()
                &&& forall|key: K| #[trigger]
                    native@.contains_key(key) ==> T::try_from_proto_spec(
                        original[key],
                        Ok(native@[key]),
                    )
            },
    {
        let ghost at = it.index() as int;
        proof {
            if keys_are_modelled::<K>() {
                lemma_next_key(original, order, at);
            }
        }
        match source.remove(&key) {
            Some(element) => {
                let converted: Result<T, ProstConvertError> = element.try_into_native();
                match converted {
                    Ok(found) => {
                        native.insert(key, found);
                    },
                    Err(error) => {
                        assert(keys_are_modelled::<K>() ==> original.contains_key(key)
                            && T::try_from_proto_spec(original[key], Err(error)));
                        return Err(error);
                    },
                }
            },
            None => {},
        }
        proof {
            if keys_are_modelled::<K>() {
                assert(source@ =~= original.remove_keys(order.take(at + 1).to_set()));
                assert(native@.dom() =~= order.take(at + 1).to_set());
            }
        }
    }
    proof {
        if keys_are_modelled::<K>() {
            assert(order.take(order.len() as int) == order);
        }
    }
    Ok(native)
}

/// The key at a position of a duplicate-free list of a map's keys is in
/// the map and not among the keys before it.
proof fn lemma_next_key<K, V>(original: Map<K, V>, order: Seq<K>, at: int)
    requires
        0 <= at < order.len(),
        order.no_duplicates(),
        order.to_set() == original.dom(),
    ensures
        original.contains_key(order[at]),
        !order.take(at).to_set().contains(order[at]),
        original.remove_keys(order.take(at).to_set()).contains_key(order[at]),
        original.remove_keys(order.take(at).to_set())[order[at]] == original[order[at]],
        order.take(at + 1).to_set() == order.take(at).to_set().insert(order[at]),
{
    let less = order.take(at);
    let more = order.take(at + 1);
    assert(order.contains(order[at]));
    assert(!less.contains(order[at]));
    assert(more.to_set() =~= less.to_set().insert(order[at])) by {
        assert forall|key: K| more.to_set().contains(key) implies less.to_set().insert(
            order[at],
        ).contains(key) by {
            let i = choose|i: int| 0 <= i < more.len() && more[i] == key;
            if i < at {
                assert(less[i] == key);
                assert(less.contains(key));
            }
        }
        assert forall|key: K| less.to_set().insert(order[at]).contains(
            key,
        ) implies more.to_set().contains(key) by {
            if key == order[at] {
                assert(more[at] == key);
                assert(more.contains(key));
            } else {
                let i = choose|i: int| 0 <= i < less.len() && less[i] == key;
                assert(more[i] == key);
                assert(more.contains(key));
            }
        }
    }
}

// Hashmap key supported by protobuf are only integer or string types
// https://developers.google.com/protocol-buffers/docs/proto3#maps
impl<T, U> TryFromProto<HashMap<i32, U>> for HashMap<i32, T> where T: TryFromProto<U> {
    /// On success the result has the keys of the map, each with the native
    /// form of its value; a failure is that of one of the values.
    open spec fn try_from_proto_spec(
        value: HashMap<i32, U>,
        native: Result<HashMap<i32, T>, ProstConvertError>,
    ) -> bool {
        map_try_from_proto_spec::<i32, T, U>(value@, outcome_view(native))
    }

    fn try_from_proto(value: HashMap<i32, U>) -> (native: Result<
        HashMap<i32, T>,
        ProstConvertError,
    >) {
        broadcast use vstd::std_specs::hash::group_hash_axioms;

        map_try_from_proto(value)
    }
}

impl<T, U> FromNative<HashMap<i32, U>> for HashMap<i32, T> where T: FromNative<U> {
    /// The result has the keys of the map, each with the protobuf form of
    /// its value.
    open spec fn from_native_spec(value: HashMap<i32, U>, wire: HashMap<i32, T>) -> bool {
        map_from_native_spec::<i32, T, U>(value@, wire@)
    }

    fn from_native(value: HashMap<i32, U>) -> (wire: HashMap<i32, T>) {
        broadcast use vstd::std_specs::hash::group_hash_axioms;

        map_from_native(value)
    }
}

impl<T, U> TryFromProto<HashMap<i64, U>> for HashMap<i64, T> where T: TryFromProto<U> {
    /// On success the result has the keys of the map, each with the native
    /// form of its value; a failure is that of one of the values.
    open spec fn try_from_proto_spec(
        value: HashMap<i64, U>,
        native: Result<HashMap<i64, T>, ProstConvertError>,
    ) -> bool {
        map_try_from_proto_spec::<i64, T, U>(value@, outcome_view(native))
    }

    fn try_from_proto(value: HashMap<i64, U>) -> (native: Result<
        HashMap<i64, T>,
        ProstConvertError,
    >) {
        broadcast use vstd::std_specs::hash::group_hash_axioms;

        map_try_from_proto(value)
    }
}

impl<T, U> FromNative<HashMap<i64, U>> for HashMap<i64, T> where T: FromNative<U> {
    /// The result has the keys of the map, each with the protobuf form of
    /// its value.
    open spec fn from_native_spec(value: HashMap<i64, U>, wire: HashMap<i64, T>) -> bool {
        map_from_native_spec::<i64, T, U>(value@, wire@)
    }

    fn from_native(value: HashMap<i64, U>) -> (wire: HashMap<i64, T>) {
        broadcast use vstd::std_specs::hash::group_hash_axioms;

        map_from_native(value)
    }
}

impl<T, U> TryFromProto<HashMap<u32, U>> for HashMap<u32, T> where T: TryFromProto<U> {
    /// On success the result has the keys of the map, each with the native
    /// form of its value; a failure is that of one of the values.
    open spec fn try_from_proto_spec(
        value: HashMap<u32, U>,
        native: Result<HashMap<u32, T>, ProstConvertError>,
    ) -> bool {
        map_try_from_proto_spec::<u32, T, U>(value@, outcome_view(native))
    }

    fn try_from_proto(value: HashMap<u32, U>) -> (native: Result<
        HashMap<u32, T>,
        ProstConvertError,
    >) {
        broadcast use vstd::std_specs::hash::group_hash_axioms;

        map_try_from_proto(value)
    }
}

impl<T, U> FromNative<HashMap<u32, U>> for HashMap<u32, T> where T: FromNative<U> {
    /// The result has the keys of the map, each with the protobuf form of
    /// its value.
    open spec fn from_native_spec(value: HashMap<u32, U>, wire: HashMap<u32, T>) -> bool {
        map_from_native_spec::<u32, T, U>(value@, wire@)
    }

    fn from_native(value: HashMap<u32, U>) -> (wire: HashMap<u32, T>) {
        broadcast use vstd::std_specs::hash::group_hash_axioms;

        map_from_native(value)
    }
}

impl<T, U> TryFromProto<HashMap<u64, U>> for HashMap<u64, T> where T: TryFromProto<U> {
    /// On success the result has the keys of the map, each with the native
    /// form of its value; a failure is that of one of the values.
    open spec fn try_from_proto_spec(
        value: HashMap<u64, U>,
        native: Result<HashMap<u64, T>, ProstConvertError>,
    ) -> bool {
        map_try_from_proto_spec::<u64, T, U>(value@, outcome_view(native))
    }

    fn try_from_proto(value: HashMap<u64, U>) -> (native: Result<
        HashMap<u64, T>,
        ProstConvertError,
    >) {
        broadcast use vstd::std_specs::hash::group_hash_axioms;

        map_try_from_proto(value)
    }
}

impl<T, U> FromNative<HashMap<u64, U>> for HashMap<u64, T> where T: FromNative<U> {
    /// The result has the keys of the map, each with the protobuf form of
    /// its value.
    open spec fn from_native_spec(value: HashMap<u64, U>, wire: HashMap<u64, T>) -> bool {
        map_from_native_spec::<u64, T, U>(value@, wire@)
    }

    fn from_native(value: HashMap<u64, U>) -> (wire: HashMap<u64, T>) {
        broadcast use vstd::std_specs::hash::group_hash_axioms;

        map_from_native(value)
    }
}

impl<T, U> TryFromProto<HashMap<bool, U>> for HashMap<bool, T> where T: TryFromProto<U> {
    /// On success the result has the keys of the map, each with the native
    /// form of its value; a failure is that of one of the values.
    open spec fn try_from_proto_spec(
        value: HashMap<bool, U>,
        native: Result<HashMap<bool, T>, ProstConvertError>,
    ) -> bool {
        map_try_from_proto_spec::<bool, T, U>(value@, outcome_view(native))
    }

    fn try_from_proto(value: HashMap<bool, U>) -> (native: Result<
        HashMap<bool, T>,
        ProstConvertError,
    >) {
        broadcast use vstd::std_specs::hash::group_hash_axioms;

        map_try_from_proto(value)
    }
}

impl<T, U> FromNative<HashMap<bool, U>> for HashMap<bool, T> where T: FromNative<U> {
    /// The result has the keys of the map, each with the protobuf form of
    /// its value.
    open spec fn from_native_spec(value: HashMap<bool, U>, wire: HashMap<bool, T>) -> bool {
        map_from_native_spec::<bool, T, U>(value@, wire@)
    }

    fn from_native(value: HashMap<bool, U>) -> (wire: HashMap<bool, T>) {
        broadcast use vstd::std_specs::hash::group_hash_axioms;

        map_from_native(value)
    }
}

impl<T, U> TryFromProto<HashMap<String, U>> for HashMap<String, T> where T: TryFromProto<U> {
    /// As for the other keys, as far as the model of hash maps holds for
    /// maps keyed by strings.
    open spec fn try_from_proto_spec(
        value: HashMap<String, U>,
        native: Result<HashMap<String, T>, ProstConvertError>,
    ) -> bool {
        keys_are_modelled::<String>() ==> map_try_from_proto_spec::<String, T, U>(
            value@,
            outcome_view(native),
        )
    }

    fn try_from_proto(value: HashMap<String, U>) -> (native: Result<
        HashMap<String, T>,
        ProstConvertError,
    >) {
        map_try_from_proto(value)
    }
}

impl<T, U> FromNative<HashMap<String, U>> for HashMap<String, T> where T: FromNative<U> {
    /// As for the other keys, as far as the model of hash maps holds for
    /// maps keyed by strings.
    open spec fn from_native_spec(value: HashMap<String, U>, wire: HashMap<String, T>) -> bool {
        keys_are_modelled::<String>() ==> map_from_native_spec::<String, T, U>(value@, wire@)
    }

    fn from_native(value: HashMap<String, U>) -> (wire: HashMap<String, T>) {
        map_from_native(value)
    }
}

} // verus!
