//! The shared collections of a cache: the result store (key to payload) and
//! the in-flight registry (keys whose fetch is under way), both `dashmap`
//! collections hashed with xxh3.

use bytes::Bytes;
use dashmap::{DashMap, DashSet};
use vstd::prelude::*;
use xxhash_rust::xxh3::Xxh3Builder;

use crate::payload::bytes_view;

verus! {

#[verifier::external_type_specification]
#[verifier::external_body]
pub struct ExXxh3Builder(Xxh3Builder);

/// Relies on `Xxh3Builder::new`: a hasher builder with the default seed and secret.
pub assume_specification[ Xxh3Builder::new ]() -> Xxh3Builder;

#[verifier::external_type_specification]
#[verifier::external_body]
#[verifier::reject_recursive_types(K)]
#[verifier::reject_recursive_types(V)]
#[verifier::reject_recursive_types(S)]
pub struct ExDashMap<K, V, S>(DashMap<K, V, S>);

#[verifier::external_type_specification]
#[verifier::external_body]
#[verifier::reject_recursive_types(K)]
#[verifier::reject_recursive_types(S)]
pub struct ExDashSet<K, S>(DashSet<K, S>);

/// The result store: canonical key to payload.
pub type ResultStore = DashMap<String, Bytes, Xxh3Builder>;

/// The in-flight registry: canonical keys whose fetch has not finished.
pub type InFlight = DashSet<String, Xxh3Builder>;

/// What a result store holds: each key's characters to its payload's bytes.
pub uninterp spec fn store_view(m: DashMap<String, Bytes, Xxh3Builder>) -> Map<Seq<char>, Seq<u8>>;

/// What an in-flight registry holds: the characters of each key in it.
pub uninterp spec fn in_flight_view(s: DashSet<String, Xxh3Builder>) -> Set<Seq<char>>;

/// Relies on `DashMap::with_hasher`: the new map holds no entry.
#[verifier::external_body]
pub(crate) fn new_store(hasher: Xxh3Builder) -> (m: ResultStore)
    ensures
        store_view(m).dom() == Set::<Seq<char>>::empty(),
{
    DashMap::with_hasher(hasher)
}

/// Relies on `DashMap::get`: an entry is found exactly when the key is present,
/// and the value handed out shares the stored buffer.
#[verifier::external_body]
pub(crate) fn store_get(m: &ResultStore, key: &str) -> (r: Option<Bytes>)
    ensures
        r.is_some() == store_view(*m).contains_key(key@),
        r matches Some(b) ==> bytes_view(b) == store_view(*m)[key@],
{
    m.get(key).map(|e| e.value().clone())
}

/// Relies on `DashMap::insert`: afterwards the key maps to the new value
/// (replacing any earlier one) and every other entry is as it was.
#[verifier::external_body]
pub(crate) fn store_insert(m: &mut ResultStore, key: String, value: Bytes)
    ensures
        store_view(*final(m)) == store_view(*old(m)).insert(key@, bytes_view(value)),
{
    m.insert(key, value);
}

/// Relies on `DashSet::with_hasher`: the new set is empty.
#[verifier::external_body]
pub(crate) fn new_in_flight(hasher: Xxh3Builder) -> (s: InFlight)
    ensures
        in_flight_view(s) == Set::<Seq<char>>::empty(),
{
    DashSet::with_hasher(hasher)
}

/// Relies on `DashSet::insert`: it adds the key and returns whether the key
/// was absent before, as one step.
#[verifier::external_body]
pub(crate) fn in_flight_insert(s: &mut InFlight, key: String) -> (r: bool)
    ensures
        r == !in_flight_view(*old(s)).contains(key@),
        in_flight_view(*final(s)) == in_flight_view(*old(s)).insert(key@),
{
    s.insert(key)
}

/// Relies on `DashSet::remove`: afterwards the key is absent and every other
/// key is as it was.
#[verifier::external_body]
pub(crate) fn in_flight_remove(s: &mut InFlight, key: &str)
    ensures
        in_flight_view(*final(s)) == in_flight_view(*old(s)).remove(key@),
{
    s.remove(key);
}

/// Relies on `DashSet::contains`: true exactly when the key is in the set.
#[verifier::external_body]
pub(crate) fn in_flight_contains(s: &InFlight, key: &str) -> (r: bool)
    ensures
        r == in_flight_view(*s).contains(key@),
{
    s.contains(key)
}

} // verus!
