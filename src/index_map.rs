//! The ordered maps that hold route parameters and the values given for
//! them: `indexmap::IndexMap`, keyed by parameter name.
use vstd::prelude::*;

use indexmap::IndexMap;

use crate::named::first_index;
use crate::parameters::{ParameterKind, ParameterValue};
use crate::payloads::ParameterPayload;
use crate::route::RouteConfig;

verus! {

#[verifier::external_type_specification]
#[verifier::external_body]
#[verifier::reject_recursive_types(K)]
#[verifier::reject_recursive_types(V)]
#[verifier::reject_recursive_types(S)]
pub struct ExIndexMap<K, V, S>(IndexMap<K, V, S>);

/// Relies on `IndexMap`'s `Clone`: a copy of the map; nothing more is
/// claimed.
pub assume_specification<K, V, S>[ <IndexMap<K, V, S> as Clone>::clone ](m: &IndexMap<K, V, S>) -> IndexMap<K, V, S>
    where
        K: Clone,
        V: Clone,
        S: Clone,
;

/// Relies on `IndexMap`'s `PartialEq`: a comparison of the maps; nothing
/// more is claimed.
pub assume_specification<K, V1, S1, V2, S2>[ <IndexMap<K, V1, S1> as PartialEq<IndexMap<K, V2, S2>>>::eq ](m: &IndexMap<K, V1, S1>, other: &IndexMap<K, V2, S2>) -> bool
    where
        K: core::hash::Hash + Eq,
        V1: PartialEq<V2>,
        S1: core::hash::BuildHasher,
        S2: core::hash::BuildHasher,
;

/// What a map of parameter kinds holds: each name with its kind, in
/// insertion order.
pub uninterp spec fn kind_entries(m: IndexMap<String, ParameterKind>) -> Seq<(Seq<char>, ParameterKind)>;

/// What a map of parameter values holds: each name with its value, in
/// insertion order.
pub uninterp spec fn value_entries(m: IndexMap<String, ParameterValue>) -> Seq<
    (Seq<char>, ParameterValue),
>;

/// The keys of a list of entries.
pub open spec fn entry_names<K, V>(entries: Seq<(K, V)>) -> Seq<K> {
    entries.map_values(|e: (K, V)| e.0)
}

/// The values of a list of entries.
pub open spec fn entry_values<K, V>(entries: Seq<(K, V)>) -> Seq<V> {
    entries.map_values(|e: (K, V)| e.1)
}

/// The value held under `name` in a list of entries: the first one with
/// that name.
pub open spec fn entries_lookup<K, V>(entries: Seq<(K, V)>, name: K) -> Option<V> {
    let i = first_index(entry_names(entries), name);
    if i >= 0 {
        Some(entry_values(entries)[i])
    } else {
        None
    }
}

/// After an insertion the inserted name holds the new value, every other
/// name holds what it held before, and the names are kept or extended by
/// the new one.
pub proof fn lemma_inserted<K, V>(before: Seq<(K, V)>, after: Seq<(K, V)>, name: K, value: V)
    requires
        inserted(before, after, name, value),
    ensures
        entries_lookup(after, name) == Some(value),
        forall|other: K|
            other != name ==> #[trigger] entries_lookup(after, other) == entries_lookup(before, other),
        entry_names(after) == entry_names(before) || entry_names(after) == entry_names(before).push(
            name,
        ),
{
    let i = first_index(entry_names(before), name);
    crate::named::lemma_first_index(entry_names(before), name);
    if i >= 0 {
        assert(entry_names(after) =~= entry_names(before));
        assert(entry_values(after) =~= entry_values(before).update(i, value));
    } else {
        assert(entry_names(after) =~= entry_names(before).push(name));
        assert(entry_values(after) =~= entry_values(before).push(value));
    }
    crate::named::lemma_first_index_push(entry_names(before), name, name);
    assert forall|other: K|
        other != name implies #[trigger] entries_lookup(after, other) == entries_lookup(before, other) by {
        crate::named::lemma_first_index(entry_names(before), other);
        crate::named::lemma_first_index_push(entry_names(before), name, other);
    }
}

/// Whether `after` is `before` with `value` inserted under `name`: in place
/// of the value of an equal name, or last.
pub open spec fn inserted<K, V>(before: Seq<(K, V)>, after: Seq<(K, V)>, name: K, value: V) -> bool {
    let i = first_index(entry_names(before), name);
    if i >= 0 {
        after == before.update(i, (name, value))
    } else {
        after == before.push((name, value))
    }
}

/// Relies on `IndexMap::new`: the map is empty.
#[verifier::external_body]
pub(crate) fn kinds_new() -> (r: IndexMap<String, ParameterKind>)
    ensures
        kind_entries(r) == Seq::<(Seq<char>, ParameterKind)>::empty(),
{
    IndexMap::new()
}

/// Relies on `IndexMap::insert`: an equal key keeps its place and takes the
/// new value; a new key goes last.
#[verifier::external_body]
pub(crate) fn kinds_insert(m: &mut IndexMap<String, ParameterKind>, key: String, value: ParameterKind)
    ensures
        inserted(kind_entries(*old(m)), kind_entries(*final(m)), key@, value),
{
    m.insert(key, value);
}

/// Relies on `IndexMap::get`: the value stored under an equal key, if any.
#[verifier::external_body]
pub(crate) fn kinds_get<'a>(m: &'a IndexMap<String, ParameterKind>, key: &str) -> (r: Option<&'a ParameterKind>)
    ensures
        first_index(entry_names(kind_entries(*m)), key@) >= 0 ==> r == Some(
            &entry_values(kind_entries(*m))[first_index(entry_names(kind_entries(*m)), key@)],
        ),
        first_index(entry_names(kind_entries(*m)), key@) < 0 ==> r is None,
{
    m.get(key)
}

/// Relies on `IndexMap::len`: the number of entries.
#[verifier::external_body]
pub(crate) fn kinds_len(m: &IndexMap<String, ParameterKind>) -> (r: usize)
    ensures
        r as nat == kind_entries(*m).len(),
{
    m.len()
}

/// Relies on `IndexMap::get_index`: the entry at a position, for valid
/// positions.
#[verifier::external_body]
pub(crate) fn kinds_get_index(m: &IndexMap<String, ParameterKind>, index: usize) -> (r: Option<(&String, &ParameterKind)>)
    ensures
        index < kind_entries(*m).len() ==> r is Some,
        index < kind_entries(*m).len() ==> r->Some_0.0@ == kind_entries(*m)[index as int].0,
        index < kind_entries(*m).len() ==> *r->Some_0.1 == kind_entries(*m)[index as int].1,
        index >= kind_entries(*m).len() ==> r is None,
{
    m.get_index(index)
}

/// Relies on `IndexMap::new`: the map is empty.
#[verifier::external_body]
pub(crate) fn values_new() -> (r: IndexMap<String, ParameterValue>)
    ensures
        value_entries(r) == Seq::<(Seq<char>, ParameterValue)>::empty(),
{
    IndexMap::new()
}

/// Relies on `IndexMap::insert`: an equal key keeps its place and takes the
/// new value; a new key goes last.
#[verifier::external_body]
pub(crate) fn values_insert(m: &mut IndexMap<String, ParameterValue>, key: String, value: ParameterValue)
    ensures
        inserted(value_entries(*old(m)), value_entries(*final(m)), key@, value),
{
    m.insert(key, value);
}

/// Relies on `IndexMap::get`: the value stored under an equal key, if any.
#[verifier::external_body]
pub(crate) fn values_get<'a>(m: &'a IndexMap<String, ParameterValue>, key: &str) -> (r: Option<&'a ParameterValue>)
    ensures
        first_index(entry_names(value_entries(*m)), key@) >= 0 ==> r == Some(
            &entry_values(value_entries(*m))[first_index(entry_names(value_entries(*m)), key@)],
        ),
        first_index(entry_names(value_entries(*m)), key@) < 0 ==> r is None,
{
    m.get(key)
}

/// Relies on `IndexMap::len`: the number of entries.
#[verifier::external_body]
pub(crate) fn values_len(m: &IndexMap<String, ParameterValue>) -> (r: usize)
    ensures
        r as nat == value_entries(*m).len(),
{
    m.len()
}

/// Relies on `IndexMap::get_index`: the entry at a position, for valid
/// positions.
#[verifier::external_body]
pub(crate) fn values_get_index(m: &IndexMap<String, ParameterValue>, index: usize) -> (r: Option<(&String, &ParameterValue)>)
    ensures
        index < value_entries(*m).len() ==> r is Some,
        index < value_entries(*m).len() ==> r->Some_0.0@ == value_entries(*m)[index as int].0,
        index < value_entries(*m).len() ==> *r->Some_0.1 == value_entries(*m)[index as int].1,
        index >= value_entries(*m).len() ==> r is None,
{
    m.get_index(index)
}

/// What a map of parameter payloads holds: each name with its payload, in
/// map order.
pub uninterp spec fn payload_entries(m: IndexMap<String, ParameterPayload>) -> Seq<
    (Seq<char>, ParameterPayload),
>;

/// Whether `after` is `before` without the entry at position `i`, whose
/// place the last entry takes.
pub open spec fn swap_removed<K, V>(before: Seq<(K, V)>, after: Seq<(K, V)>, i: int) -> bool {
    after == before.update(i, before.last()).drop_last()
}

/// Relies on `IndexMap::new`: the map is empty.
#[verifier::external_body]
pub(crate) fn payloads_new() -> (r: IndexMap<String, ParameterPayload>)
    ensures
        payload_entries(r) == Seq::<(Seq<char>, ParameterPayload)>::empty(),
{
    IndexMap::new()
}

/// Relies on `IndexMap::insert`: an equal key keeps its place and takes the
/// new value; a new key goes last.
#[verifier::external_body]
pub(crate) fn payloads_insert(m: &mut IndexMap<String, ParameterPayload>, key: String, value: ParameterPayload)
    ensures
        inserted(payload_entries(*old(m)), payload_entries(*final(m)), key@, value),
{
    m.insert(key, value);
}

/// Relies on `IndexMap::get`: the value stored under an equal key, if any.
#[verifier::external_body]
pub(crate) fn payloads_get<'a>(m: &'a IndexMap<String, ParameterPayload>, key: &str) -> (r: Option<&'a ParameterPayload>)
    ensures
        first_index(entry_names(payload_entries(*m)), key@) >= 0 ==> r == Some(
            &entry_values(payload_entries(*m))[first_index(entry_names(payload_entries(*m)), key@)],
        ),
        first_index(entry_names(payload_entries(*m)), key@) < 0 ==> r is None,
{
    m.get(key)
}

/// Relies on `IndexMap::swap_remove`: the value of an equal key is taken
/// out, and the last entry takes its place.
#[verifier::external_body]
pub(crate) fn payloads_swap_remove(m: &mut IndexMap<String, ParameterPayload>, key: &str) -> (r: Option<ParameterPayload>)
    ensures
        first_index(entry_names(payload_entries(*old(m))), key@) >= 0 ==> {
            &&& r == Some(
                entry_values(payload_entries(*old(m)))[first_index(
                    entry_names(payload_entries(*old(m))),
                    key@,
                )],
            )
            &&& swap_removed(
                payload_entries(*old(m)),
                payload_entries(*final(m)),
                first_index(entry_names(payload_entries(*old(m))), key@),
            )
        },
        first_index(entry_names(payload_entries(*old(m))), key@) < 0 ==> r is None,
        first_index(entry_names(payload_entries(*old(m))), key@) < 0 ==> payload_entries(*final(m))
            == payload_entries(*old(m)),
{
    m.swap_remove(key)
}

/// What a map of route configurations holds: each configuration under its
/// path and method code, in insertion order.
pub uninterp spec fn route_entries(m: IndexMap<(String, u8), RouteConfig>) -> Seq<
    ((Seq<char>, u8), RouteConfig),
>;

/// Relies on `IndexMap::new`: the map is empty.
#[verifier::external_body]
pub(crate) fn routes_new() -> (r: IndexMap<(String, u8), RouteConfig>)
    ensures
        route_entries(r) == Seq::<((Seq<char>, u8), RouteConfig)>::empty(),
{
    IndexMap::new()
}

/// Relies on `IndexMap::contains_key`: whether an equal key is held.
#[verifier::external_body]
pub(crate) fn routes_contains_key(m: &IndexMap<(String, u8), RouteConfig>, key: &(String, u8)) -> (r: bool)
    ensures
        r == (first_index(entry_names(route_entries(*m)), (key.0@, key.1)) >= 0),
{
    m.contains_key(key)
}

/// Relies on `IndexMap::insert`: an equal key keeps its place and takes the
/// new value; a new key goes last.
#[verifier::external_body]
pub(crate) fn routes_insert(m: &mut IndexMap<(String, u8), RouteConfig>, key: (String, u8), value: RouteConfig)
    ensures
        inserted(route_entries(*old(m)), route_entries(*final(m)), (key.0@, key.1), value),
{
    m.insert(key, value);
}

/// Relies on `IndexMap::len`: the number of entries.
#[verifier::external_body]
pub(crate) fn routes_len(m: &IndexMap<(String, u8), RouteConfig>) -> (r: usize)
    ensures
        r as nat == route_entries(*m).len(),
{
    m.len()
}

/// Relies on `IndexMap::into_values`: the values, in map order.
#[verifier::external_body]
pub(crate) fn routes_into_values(m: IndexMap<(String, u8), RouteConfig>) -> (r: Vec<RouteConfig>)
    ensures
        r@ == entry_values(route_entries(m)),
{
    m.into_values().collect()
}

} // verus!
