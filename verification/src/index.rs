//! Trusted boundary to the `dashmap` crate.
//!
//! The registries of this crate keep their records in vectors and use a
//! `DashMap` only to find the slot of a key. Nothing in this file is proved:
//! each contract below restates what the `dashmap` source shows of one method,
//! over an uninterpreted function that names the entries of the map.

use dashmap::DashMap;
use vstd::prelude::*;

verus! {

/// The concurrent hash map of the `dashmap` crate, opaque to the verifier.
#[verifier::external_type_specification]
#[verifier::external_body]
#[verifier::reject_recursive_types(K)]
#[verifier::reject_recursive_types(V)]
#[verifier::reject_recursive_types(S)]
pub struct ExDashMap<K, V, S>(DashMap<K, V, S>);

/// The entries of a slot index keyed by strings, each key taken by its characters.
pub uninterp spec fn name_slots(index: DashMap<String, usize>) -> Map<Seq<char>, usize>;

/// The entries of a slot index keyed by 64-bit identifiers.
pub uninterp spec fn id_slots(index: DashMap<u64, usize>) -> Map<u64, usize>;

/// `DashMap::with_capacity`: a map created with a starting capacity holds no entry.
/// The capacity is kept small, so that the shard tables can be allocated.
#[verifier::external_body]
pub(crate) fn name_index_new(capacity: usize) -> (created: DashMap<String, usize>)
    requires
        capacity <= 1024,
    ensures
        name_slots(created) == (Map::<Seq<char>, usize>::empty()),
{
    DashMap::with_capacity(capacity)
}

/// `DashMap::get`: the value stored under `key` is handed out (here copied out of
/// the guard) exactly when the map holds the key.
#[verifier::external_body]
pub(crate) fn name_index_get(index: &DashMap<String, usize>, key: &String) -> (slot: Option<usize>)
    ensures
        slot == (if name_slots(*index).dom().contains(key@) {
            Some(name_slots(*index)[key@])
        } else {
            None
        }),
{
    index.get(key).map(|entry| *entry.value())
}

/// `DashMap::insert`: afterwards the map holds `slot` under `key` and every other
/// entry as before; the value that `key` had before, if any, is returned.
#[verifier::external_body]
pub(crate) fn name_index_insert(index: &mut DashMap<String, usize>, key: String, slot: usize) -> (previous: Option<usize>)
    ensures
        name_slots(*final(index)) == name_slots(*old(index)).insert(key@, slot),
        previous == (if name_slots(*old(index)).dom().contains(key@) {
            Some(name_slots(*old(index))[key@])
        } else {
            None
        }),
{
    index.insert(key, slot)
}

/// `DashMap::remove`: afterwards the map holds no entry under `key` and every other
/// entry as before; the value of the removed entry, if there was one, is returned.
#[verifier::external_body]
pub(crate) fn name_index_remove(index: &mut DashMap<String, usize>, key: &String) -> (removed: Option<usize>)
    ensures
        name_slots(*final(index)) == name_slots(*old(index)).remove(key@),
        removed == (if name_slots(*old(index)).dom().contains(key@) {
            Some(name_slots(*old(index))[key@])
        } else {
            None
        }),
{
    index.remove(key).map(|entry| entry.1)
}

/// `DashMap::with_capacity`, for identifier keys: the new map holds no entry.
#[verifier::external_body]
pub(crate) fn id_index_new(capacity: usize) -> (created: DashMap<u64, usize>)
    requires
        capacity <= 1024,
    ensures
        id_slots(created) == (Map::<u64, usize>::empty()),
{
    DashMap::with_capacity(capacity)
}

/// `DashMap::get`, for identifier keys: the value under `key`, if the map holds it.
#[verifier::external_body]
pub(crate) fn id_index_get(index: &DashMap<u64, usize>, key: u64) -> (slot: Option<usize>)
    ensures
        slot == (if id_slots(*index).dom().contains(key) {
            Some(id_slots(*index)[key])
        } else {
            None
        }),
{
    index.get(&key).map(|entry| *entry.value())
}

/// `DashMap::insert`, for identifier keys: the map then holds `slot` under `key`,
/// the rest unchanged; the former value under `key` is returned.
#[verifier::external_body]
pub(crate) fn id_index_insert(index: &mut DashMap<u64, usize>, key: u64, slot: usize) -> (previous: Option<usize>)
    ensures
        id_slots(*final(index)) == id_slots(*old(index)).insert(key, slot),
        previous == (if id_slots(*old(index)).dom().contains(key) {
            Some(id_slots(*old(index))[key])
        } else {
            None
        }),
{
    index.insert(key, slot)
}

/// `DashMap::remove`, for identifier keys: the entry under `key` leaves the map,
/// the rest stays; the removed value is returned.
#[verifier::external_body]
pub(crate) fn id_index_remove(index: &mut DashMap<u64, usize>, key: u64) -> (removed: Option<usize>)
    ensures
        id_slots(*final(index)) == id_slots(*old(index)).remove(key),
        removed == (if id_slots(*old(index)).dom().contains(key) {
            Some(id_slots(*old(index))[key])
        } else {
            None
        }),
{
    index.remove(&key).map(|entry| entry.1)
}

} // verus!
