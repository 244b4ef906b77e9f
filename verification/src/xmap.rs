//! The hash map of `pi_hash`, keyed by integers.
//!
//! `pi_hash::XHashMap` is std's `HashMap` with the hasher that `pi_hash`
//! picks by the target (FxHash of the pointer width). With integer keys it
//! behaves as a map of the keys to their last values whatever the hasher;
//! the items below state that for the few operations the library uses.
use vstd::prelude::*;

use std::collections::hash_map::Keys;

use pi_hash::XHashMap;
use vstd::std_specs::hash::spec_keys_iter;
use vstd::std_specs::iter::IteratorSpec;

verus! {

/// The hasher that `pi_hash` uses by default (`fxhash::FxHasher64` on
/// 64-bit targets).
#[verifier::external_type_specification]
#[verifier::external_body]
pub struct ExDefaultHasher(pi_hash::DefaultHasher);

/// std's hasher builder that makes each hasher with `Default`.
#[verifier::external_type_specification]
#[verifier::external_body]
#[verifier::reject_recursive_types(H)]
pub struct ExBuildHasherDefault<H>(std::hash::BuildHasherDefault<H>);

/// `XHashMap::default()`, that is std's `HashMap::default`: an empty map.
#[verifier::external_body]
pub(crate) fn xmap_new<V>() -> (r: XHashMap<u64, V>)
    ensures
        r@.dom() == Set::<u64>::empty(),
{
    XHashMap::default()
}

/// std's `HashMap::insert`: the key now maps to the value; the value it
/// mapped to before, if any, is returned.
#[verifier::external_body]
pub(crate) fn xmap_insert<V>(m: &mut XHashMap<u64, V>, k: u64, v: V) -> (r: Option<V>)
    ensures
        final(m)@ == old(m)@.insert(k, v),
        r == (if old(m)@.contains_key(k) {
            Some(old(m)@[k])
        } else {
            None
        }),
{
    m.insert(k, v)
}

/// std's `HashMap::remove`: the key is gone; the value it mapped to, if
/// any, is returned.
#[verifier::external_body]
pub(crate) fn xmap_remove<V>(m: &mut XHashMap<u64, V>, k: &u64) -> (r: Option<V>)
    ensures
        final(m)@ == old(m)@.remove(*k),
        r == (if old(m)@.contains_key(*k) {
            Some(old(m)@[*k])
        } else {
            None
        }),
{
    m.remove(k)
}

/// std's `HashMap::get`: the value of the key, if it has one.
#[verifier::external_body]
pub(crate) fn xmap_get<'a, V>(m: &'a XHashMap<u64, V>, k: &u64) -> (r: Option<&'a V>)
    ensures
        r == (if m@.contains_key(*k) {
            Some(&m@[*k])
        } else {
            None
        }),
{
    m.get(k)
}

/// std's `HashMap::get_mut`: the value of the key, if it has one, to
/// change in place.
#[verifier::external_body]
pub(crate) fn xmap_get_mut<'a, V>(m: &'a mut XHashMap<u64, V>, k: &u64) -> (r: Option<&'a mut V>)
    ensures
        r is Some == old(m)@.contains_key(*k),
        r is None ==> final(m)@ == old(m)@,
        r matches Some(v) ==> *v == old(m)@[*k] && final(m)@ == old(m)@.insert(*k, *final(v)),
{
    m.get_mut(k)
}

/// std's `HashMap::keys`: the iterator is the one that vstd describes for
/// `HashMap::keys` of this map (it yields every key once, in an order that
/// is not stated, and ends), as vstd states of `HashMap::keys` for the
/// hashers it knows; with integer keys this holds whatever the hasher.
#[verifier::external_body]
pub(crate) fn xmap_keys<'a, V>(m: &'a XHashMap<u64, V>) -> (keys: Keys<'a, u64, V>)
    ensures
        keys == spec_keys_iter(m),
        IteratorSpec::decrease(&keys) is Some,
        IteratorSpec::initial_value_relation(&keys, &keys),
{
    m.keys()
}

} // verus!
