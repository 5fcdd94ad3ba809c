//! Hash tables with the Fx hasher of `rustc_hash`, as the library uses them.
//!
//! The table is `rustc_hash::FxHashMap`, that is std's `HashMap` with
//! `FxBuildHasher`. Its contents are spoken of through the view `@` that vstd
//! gives every `HashMap`: the `Map` from the keys it holds to their values. The
//! functions of this file call the table's methods; their contracts are not
//! proved but taken from the documentation of `HashMap` and from the source of
//! `rustc_hash`, whose hasher starts from a fixed state and keeps no secret, so
//! that a key is always found again. Each asks that the key type obeys vstd's
//! model of a key (`==` is identity and the hash depends on the value alone),
//! which vstd grants the integer types.

use vstd::prelude::*;
use vstd::std_specs::hash::obeys_key_model;
use rustc_hash::FxBuildHasher;
use rustc_hash::FxHashMap;
use std::hash::Hash;

verus! {

/// `rustc_hash::FxBuildHasher`, the hasher factory of every table here. Nothing
/// is said of its inside.
#[verifier::external_type_specification]
#[verifier::external_body]
pub struct ExFxBuildHasher(FxBuildHasher);

/// `FxHashMap::default()`: a table that holds nothing.
#[verifier::external_body]
pub(crate) fn table_new<K: Eq + Hash, V>() -> (table: FxHashMap<K, V>)
    requires
        obeys_key_model::<K>(),
    ensures
        table@ == (Map::<K, V>::empty()),
{
    FxHashMap::default()
}

/// `HashMap::insert`: afterwards the table maps `key` to `value` and is otherwise
/// as before; the value that `key` had before, if any, is returned.
#[verifier::external_body]
pub(crate) fn table_insert<K: Eq + Hash, V>(table: &mut FxHashMap<K, V>, key: K, value: V) -> (previous:
    Option<V>)
    requires
        obeys_key_model::<K>(),
    ensures
        final(table)@ == old(table)@.insert(key, value),
        previous == (if old(table)@.contains_key(key) {
            Some(old(table)@[key])
        } else {
            None
        }),
{
    table.insert(key, value)
}

/// `HashMap::get`: the value of `key`, if the table holds the key.
#[verifier::external_body]
pub(crate) fn table_get<'a, K: Eq + Hash, V>(table: &'a FxHashMap<K, V>, key: &K) -> (value: Option<
    &'a V,
>)
    requires
        obeys_key_model::<K>(),
    ensures
        value == (if table@.contains_key(*key) {
            Some(&table@[*key])
        } else {
            None
        }),
{
    table.get(key)
}

/// `HashMap::get_mut`: a mutable borrow of the value of `key`, if the table holds
/// the key. When the borrow ends the table maps `key` to what was written through
/// it and is otherwise as before.
#[verifier::external_body]
pub(crate) fn table_get_mut<'a, K: Eq + Hash, V>(table: &'a mut FxHashMap<K, V>, key: &K) -> (value:
    Option<&'a mut V>)
    requires
        obeys_key_model::<K>(),
    ensures
        match value {
            Some(v) => {
                &&& old(table)@.contains_key(*key)
                &&& *v == old(table)@[*key]
                &&& final(table)@ == old(table)@.insert(*key, *final(v))
            },
            None => !old(table)@.contains_key(*key) && final(table)@ == old(table)@,
        },
{
    table.get_mut(key)
}

/// `HashMap::remove`: afterwards the table does not hold `key` and is otherwise as
/// before; the value that `key` had, if any, is returned.
#[verifier::external_body]
pub(crate) fn table_remove<K: Eq + Hash, V>(table: &mut FxHashMap<K, V>, key: &K) -> (previous:
    Option<V>)
    requires
        obeys_key_model::<K>(),
    ensures
        final(table)@ == old(table)@.remove(*key),
        previous == (if old(table)@.contains_key(*key) {
            Some(old(table)@[*key])
        } else {
            None
        }),
{
    table.remove(key)
}

/// `HashMap::keys`, copied into a vector: every key of the table once, in the
/// order in which the table happens to walk them, of which nothing is said.
#[verifier::external_body]
pub(crate) fn table_keys<K: Eq + Hash + Copy, V>(table: &FxHashMap<K, V>) -> (keys: Vec<K>)
    requires
        obeys_key_model::<K>(),
    ensures
        keys@.no_duplicates(),
        forall|key: K| keys@.contains(key) <==> table@.contains_key(key),
{
    table.keys().copied().collect()
}

} // verus!
