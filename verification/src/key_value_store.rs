//! The in-memory store: a map from string keys to string values, held in a
//! concurrent hash map so that distinct keys do not contend on one lock.
use vstd::prelude::*;

use dashmap::DashMap;

verus! {

#[verifier::external_type_specification]
#[verifier::external_body]
#[verifier::reject_recursive_types(K)]
#[verifier::reject_recursive_types(V)]
#[verifier::reject_recursive_types(S)]
pub struct ExDashMap<K, V, S>(DashMap<K, V, S>);

/// The entries a concurrent map currently holds, as a map over the character
/// sequences of its keys and values.
pub uninterp spec fn dash_map_entries(m: DashMap<String, String>) -> Map<Seq<char>, Seq<char>>;

/// Relies on dashmap::DashMap::new: the newly created map holds no entries.
#[verifier::external_body]
fn dash_new() -> (m: DashMap<String, String>)
    ensures
        dash_map_entries(m) =~= Map::empty(),
{
    DashMap::new()
}

/// Relies on dashmap::DashMap::insert: stores `value` under `key`, replacing
/// and returning the value previously stored there, if any.
#[verifier::external_body]
fn dash_insert(m: &mut DashMap<String, String>, key: String, value: String) -> (r: Option<
    String,
>)
    ensures
        dash_map_entries(*final(m)) == dash_map_entries(*old(m)).insert(key@, value@),
        r is Some <==> dash_map_entries(*old(m)).contains_key(key@),
        r matches Some(prev) ==> prev@ == dash_map_entries(*old(m))[key@],
{
    m.insert(key, value)
}

/// Relies on dashmap::DashMap::get: returns the value stored under `key`,
/// if any, leaving the map unchanged. The guard it hands out is cloned here.
#[verifier::external_body]
fn dash_get(m: &DashMap<String, String>, key: &String) -> (r: Option<String>)
    ensures
        r is Some <==> dash_map_entries(*m).contains_key(key@),
        r matches Some(v) ==> v@ == dash_map_entries(*m)[key@],
{
    match m.get(key) {
        Some(entry) => Some(entry.value().clone()),
        None => None,
    }
}

/// Relies on dashmap::DashMap::remove: takes the entry stored under `key` out
/// of the map and returns it, if there was one.
#[verifier::external_body]
fn dash_remove(m: &mut DashMap<String, String>, key: &String) -> (r: Option<(String, String)>)
    ensures
        dash_map_entries(*final(m)) == dash_map_entries(*old(m)).remove(key@),
        r is Some <==> dash_map_entries(*old(m)).contains_key(key@),
        r matches Some(p) ==> p.0@ == key@ && p.1@ == dash_map_entries(*old(m))[key@],
{
    m.remove(key)
}

/// What a lookup yields on a given store state: the value under the key, if
/// the key is present.
pub open spec fn store_lookup(m: Map<Seq<char>, Seq<char>>, k: Seq<char>) -> Option<Seq<char>> {
    if m.contains_key(k) {
        Some(m[k])
    } else {
        None
    }
}

/// The failure an operation returns when the key it was given has no entry;
/// it carries the queried key.
pub struct KeyNotFoundError {
    pub key: String,
}

/// The store itself: every access goes through `put`, `get` and `delete`,
/// which hand out copies of the stored strings.
pub struct KeyValueStore {
    map: DashMap<String, String>,
}

impl View for KeyValueStore {
    type V = Map<Seq<char>, Seq<char>>;

    closed spec fn view(&self) -> Map<Seq<char>, Seq<char>> {
        dash_map_entries(self.map)
    }
}

impl KeyValueStore {
    /// Creates an empty store.
    pub fn new() -> (s: Self)
        ensures
            s@ == Map::<Seq<char>, Seq<char>>::empty(),
    {
        KeyValueStore { map: dash_new() }
    }

    /// Inserts or overwrites the entry for `key`; always succeeds and returns
    /// the stored pair.
    pub fn put(&mut self, key: String, value: String) -> (r: (String, String))
        ensures
            final(self)@ == old(self)@.insert(key@, value@),
            r.0@ == key@ && r.1@ == value@,
    {
        dash_insert(&mut self.map, key.clone(), value.clone());
        (key, value)
    }

    /// Returns the current entry for `key` if one is present, else fails with
    /// `KeyNotFoundError` carrying the queried key. The store is unchanged.
    pub fn get(&self, key: String) -> (r: Result<(String, String), KeyNotFoundError>)
        ensures
            r is Ok <==> store_lookup(self@, key@) is Some,
            r matches Ok(p) ==> p.0@ == key@ && store_lookup(self@, key@) == Some(p.1@),
            r matches Err(e) ==> e.key@ == key@,
    {
        if let Some(value) = dash_get(&self.map, &key) {
            Ok((key, value))
        } else {
            Err(KeyNotFoundError { key })
        }
    }

    /// Removes and returns the entry for `key` if one is present, else fails
    /// with `KeyNotFoundError` carrying the queried key.
    pub fn delete(&mut self, key: String) -> (r: Result<(String, String), KeyNotFoundError>)
        ensures
            final(self)@ == old(self)@.remove(key@),
            r is Ok <==> store_lookup(old(self)@, key@) is Some,
            r matches Ok(p) ==> p.0@ == key@ && store_lookup(old(self)@, key@) == Some(p.1@),
            r matches Err(e) ==> e.key@ == key@,
    {
        if let Some(pair) = dash_remove(&mut self.map, &key) {
            Ok(pair)
        } else {
            Err(KeyNotFoundError { key })
        }
    }
}

/// The store state after a run of puts of the values `vs`, oldest first, all
/// under the key `k`.
pub open spec fn store_after_puts(
    m: Map<Seq<char>, Seq<char>>,
    k: Seq<char>,
    vs: Seq<Seq<char>>,
) -> Map<Seq<char>, Seq<char>>
    decreases vs.len(),
{
    if vs.len() == 0 {
        m
    } else {
        store_after_puts(m, k, vs.drop_last()).insert(k, vs.last())
    }
}

/// Overwrite semantics: storing under one key twice leaves the value stored
/// second, whatever was stored first and whatever the store held before.
pub proof fn lemma_put_overwrites(
    m: Map<Seq<char>, Seq<char>>,
    k: Seq<char>,
    v1: Seq<char>,
    v2: Seq<char>,
)
    ensures
        store_lookup(m.insert(k, v1).insert(k, v2), k) == Some(v2),
{
}

/// A key that is absent is reported absent by a lookup, and removing it
/// leaves the store as it was, so a delete of it fails the same way.
pub proof fn lemma_absent_key_not_found(m: Map<Seq<char>, Seq<char>>, k: Seq<char>)
    requires
        !m.contains_key(k),
    ensures
        store_lookup(m, k) is None,
        m.remove(k) =~= m,
{
}

/// A delete removes: after a put of (k, v), a delete finds exactly (k, v),
/// and a lookup after the delete finds nothing.
pub proof fn lemma_delete_removes(
    m: Map<Seq<char>, Seq<char>>,
    k: Seq<char>,
    v: Seq<char>,
)
    ensures
        store_lookup(m.insert(k, v), k) == Some(v),
        store_lookup(m.insert(k, v).remove(k), k) is None,
{
}

/// Deleting twice in a row yields success then failure: the first delete of a
/// present key finds its value, and the second finds nothing.
pub proof fn lemma_delete_twice(m: Map<Seq<char>, Seq<char>>, k: Seq<char>)
    requires
        m.contains_key(k),
    ensures
        store_lookup(m, k) is Some,
        store_lookup(m.remove(k), k) is None,
{
}

/// Any number of puts under one key, applied in any total order (operations
/// on one key are linearizable, so some such order exists), leave the store
/// holding exactly one of the submitted values for that key: the one the
/// order placed last.
pub proof fn lemma_same_key_puts_leave_one_value(
    m: Map<Seq<char>, Seq<char>>,
    k: Seq<char>,
    vs: Seq<Seq<char>>,
)
    requires
        vs.len() > 0,
    ensures
        store_lookup(store_after_puts(m, k, vs), k) == Some(vs.last()),
        exists|i: int| 0 <= i < vs.len() && store_lookup(store_after_puts(m, k, vs), k) == Some(
            vs[i],
        ),
{
    assert(0 <= vs.len() - 1 < vs.len() && store_lookup(store_after_puts(m, k, vs), k) == Some(
        vs[vs.len() - 1],
    ));
}

} // verus!
