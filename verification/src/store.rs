//! The concurrent map that backs the item store, and what is assumed of it.
//!
//! Nothing in this file is proved. Every function here calls one method of
//! `dashmap::DashMap` and states what that method does to the entries of the
//! map. The mutating methods are reached through `&mut`, so that a caller
//! holds the map exclusively for the duration of the call.

use dashmap::DashMap;
use vstd::prelude::*;

use crate::text::views;
use crate::types::{Item, ItemMap};

verus! {

/// `dashmap::DashMap`, of which the verifier sees nothing but the name.
#[verifier::external_type_specification]
#[verifier::external_body]
#[verifier::reject_recursive_types(K)]
#[verifier::reject_recursive_types(V)]
#[verifier::reject_recursive_types(S)]
pub struct ExDashMap<K, V, S>(DashMap<K, V, S>);

/// The entries that a map holds: each key with the value kept under it.
pub uninterp spec fn map_entries(db: DashMap<String, Item>) -> ItemMap;

/// `DashMap::with_capacity`: a map without entries. The capacity is only a
/// hint for the first allocation; it is bounded so that the size of that
/// allocation can be computed.
#[verifier::external_body]
pub(crate) fn map_with_capacity(capacity: usize) -> (db: DashMap<String, Item>)
    requires
        capacity <= 0x10000,
    ensures
        map_entries(db) == ItemMap::empty(),
{
    DashMap::with_capacity(capacity)
}

/// `DashMap::get`: a copy of the value kept under `key`, if there is one.
#[verifier::external_body]
pub(crate) fn map_get(db: &DashMap<String, Item>, key: &str) -> (found: Option<Item>)
    ensures
        found is Some == map_entries(*db).contains_key(key@),
        found matches Some(item) ==> item@ == map_entries(*db)[key@],
{
    db.get(key).map(|entry| entry.value().clone())
}

/// `DashMap::contains_key`: whether a value is kept under `key`.
#[verifier::external_body]
pub(crate) fn map_contains_key(db: &DashMap<String, Item>, key: &str) -> (present: bool)
    ensures
        present == map_entries(*db).contains_key(key@),
{
    db.contains_key(key)
}

/// `DashMap::insert`: puts `value` under `key` and hands back the value that
/// was there before, if any. No other entry changes, and the call returns.
#[verifier::external_body]
pub(crate) fn map_insert(db: &mut DashMap<String, Item>, key: String, value: Item) -> (previous:
    Option<Item>)
    ensures
        map_entries(*final(db)) == map_entries(*old(db)).insert(key@, value@),
        previous is Some == map_entries(*old(db)).contains_key(key@),
        previous matches Some(item) ==> item@ == map_entries(*old(db))[key@],
    no_unwind
{
    db.insert(key, value)
}

/// `DashMap::remove`: takes the entry under `key` out of the map and hands
/// back its key and value, if there was one. No other entry changes, and the
/// call returns.
#[verifier::external_body]
pub(crate) fn map_remove(db: &mut DashMap<String, Item>, key: &str) -> (removed: Option<
    (String, Item),
>)
    ensures
        map_entries(*final(db)) == map_entries(*old(db)).remove(key@),
        removed is Some == map_entries(*old(db)).contains_key(key@),
        removed matches Some(pair) ==> pair.0@ == key@ && pair.1@ == map_entries(*old(db))[key@],
    no_unwind
{
    db.remove(key)
}

/// `DashMap::len`: the number of entries.
#[verifier::external_body]
pub(crate) fn map_len(db: &DashMap<String, Item>) -> (n: usize)
    ensures
        n == map_entries(*db).dom().len(),
{
    db.len()
}

/// `DashMap::capacity`: how many entries the map can hold before it grows,
/// which is never fewer than it holds.
#[verifier::external_body]
pub(crate) fn map_capacity(db: &DashMap<String, Item>) -> (n: usize)
    ensures
        n >= map_entries(*db).dom().len(),
{
    db.capacity()
}

/// `DashMap::clear`: removes every entry, and returns.
#[verifier::external_body]
pub(crate) fn map_clear(db: &mut DashMap<String, Item>)
    ensures
        map_entries(*final(db)) == ItemMap::empty(),
    no_unwind
{
    db.clear()
}

/// `DashMap::iter`: the keys of all entries, each once, in the order in which
/// the map is walked. That order is not stated.
#[verifier::external_body]
pub(crate) fn map_keys(db: &DashMap<String, Item>) -> (keys: Vec<String>)
    ensures
        views(keys@).no_duplicates(),
        views(keys@).to_set() == map_entries(*db).dom(),
{
    db.iter().map(|entry| entry.key().clone()).collect()
}

} // verus!
