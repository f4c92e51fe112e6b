//! A keyed table of records: the records lie in a dense vector, and a hash index
//! maps each key to the slot of its record.
//!
//! The index is a `DashMap` behind the contracts of [`crate::index`]; everything
//! else in this file is verified. A table is a `Map` from keys to the views of
//! its records, and every record in it is well-formed.

use crate::index::{
    id_index_get, id_index_insert, id_index_new, id_index_remove, id_slots, name_index_get,
    name_index_insert, name_index_new, name_index_remove, name_slots,
};
use crate::text::has_prefix;
use dashmap::DashMap;
use vstd::prelude::*;

verus! {

/// A value that a registry can hold: it has a view, and a well-formedness
/// predicate that the registry keeps for every record it stores.
pub trait Record: View {
    spec fn wf(&self) -> bool;
}

impl Record for String {
    open spec fn wf(&self) -> bool {
        true
    }
}

impl Record for u64 {
    open spec fn wf(&self) -> bool {
        true
    }
}

/// An index from keys to slots.
pub trait SlotIndex: Sized {
    type Key: View;

    /// The slot recorded for each key.
    spec fn slots(&self) -> Map<<Self::Key as View>::V, usize>;

    fn with_capacity(capacity: usize) -> (index: Self)
        requires
            capacity <= 1024,
        ensures
            index.slots() == (Map::<<Self::Key as View>::V, usize>::empty()),
    ;

    fn slot_of(&self, key: &Self::Key) -> (slot: Option<usize>)
        ensures
            slot == (if self.slots().dom().contains(key@) {
                Some(self.slots()[key@])
            } else {
                None
            }),
    ;

    fn assign(&mut self, key: Self::Key, slot: usize)
        ensures
            final(self).slots() == old(self).slots().insert(key@, slot),
    ;

    fn release(&mut self, key: &Self::Key)
        ensures
            final(self).slots() == old(self).slots().remove(key@),
    ;

    fn copy_key(key: &Self::Key) -> (copy: Self::Key)
        ensures
            copy@ == key@,
    ;
}

/// Slot index keyed by strings (client ids, topic names, composite keys).
pub struct NameIndex {
    map: DashMap<String, usize>,
}

impl SlotIndex for NameIndex {
    type Key = String;

    closed spec fn slots(&self) -> Map<Seq<char>, usize> {
        name_slots(self.map)
    }

    fn with_capacity(capacity: usize) -> (index: Self) {
        NameIndex { map: name_index_new(capacity) }
    }

    fn slot_of(&self, key: &String) -> (slot: Option<usize>) {
        name_index_get(&self.map, key)
    }

    fn assign(&mut self, key: String, slot: usize) {
        let _ = name_index_insert(&mut self.map, key, slot);
    }

    fn release(&mut self, key: &String) {
        let _ = name_index_remove(&mut self.map, key);
    }

    fn copy_key(key: &String) -> (copy: String) {
        key.clone()
    }
}

/// Slot index keyed by connection ids.
pub struct IdIndex {
    map: DashMap<u64, usize>,
}

impl SlotIndex for IdIndex {
    type Key = u64;

    closed spec fn slots(&self) -> Map<u64, usize> {
        id_slots(self.map)
    }

    fn with_capacity(capacity: usize) -> (index: Self) {
        IdIndex { map: id_index_new(capacity) }
    }

    fn slot_of(&self, key: &u64) -> (slot: Option<usize>) {
        id_index_get(&self.map, *key)
    }

    fn assign(&mut self, key: u64, slot: usize) {
        let _ = id_index_insert(&mut self.map, key, slot);
    }

    fn release(&mut self, key: &u64) {
        let _ = id_index_remove(&mut self.map, *key);
    }

    fn copy_key(key: &u64) -> (copy: u64) {
        *key
    }
}

/// Slot index keyed by topic aliases: an index by identifiers that is asked
/// for 16-bit keys only.
pub struct AliasIndex {
    wide: IdIndex,
}

impl SlotIndex for AliasIndex {
    type Key = u16;

    closed spec fn slots(&self) -> Map<u16, usize> {
        Map::new(
            |alias: u16| self.wide.slots().dom().contains(alias as u64),
            |alias: u16| self.wide.slots()[alias as u64],
        )
    }

    fn with_capacity(capacity: usize) -> (index: Self) {
        let index = AliasIndex { wide: IdIndex::with_capacity(capacity) };
        assert(index.slots() =~= Map::<u16, usize>::empty());
        index
    }

    fn slot_of(&self, key: &u16) -> (slot: Option<usize>) {
        self.wide.slot_of(&(*key as u64))
    }

    fn assign(&mut self, key: u16, slot: usize) {
        self.wide.assign(key as u64, slot);
        assert(self.slots() =~= old(self).slots().insert(key, slot));
    }

    fn release(&mut self, key: &u16) {
        self.wide.release(&(*key as u64));
        assert(self.slots() =~= old(self).slots().remove(*key));
    }

    fn copy_key(key: &u16) -> (copy: u16) {
        *key
    }
}

/// A table from keys to records.
pub struct Registry<I: SlotIndex, V: Record> {
    index: I,
    keys: Vec<I::Key>,
    values: Vec<V>,
}

impl<I: SlotIndex, V: Record> View for Registry<I, V> {
    type V = Map<<I::Key as View>::V, V::V>;

    closed spec fn view(&self) -> Map<<I::Key as View>::V, V::V> {
        Map::new(
            |k: <I::Key as View>::V| self.index.slots().dom().contains(k),
            |k: <I::Key as View>::V| self.values@[self.index.slots()[k] as int]@,
        )
    }
}

impl<I: SlotIndex, V: Record> Record for Registry<I, V> {
    closed spec fn wf(&self) -> bool {
        &&& self.keys@.len() == self.values@.len()
        &&& forall|i: int|
            0 <= i < self.keys@.len() ==> self.index.slots().dom().contains(#[trigger] self.keys@[i]@)
                && self.index.slots()[self.keys@[i]@] == i
        &&& forall|k: <I::Key as View>::V| #[trigger]
            self.index.slots().dom().contains(k) ==> self.index.slots()[k] < self.keys@.len()
                && self.keys@[self.index.slots()[k] as int]@ == k
        &&& forall|i: int| 0 <= i < self.values@.len() ==> (#[trigger] self.values@[i]).wf()
    }
}

impl<I: SlotIndex, V: Record> Registry<I, V> {
    /// The key that lies in each slot, in slot order.
    pub closed spec fn slot_keys(&self) -> Seq<<I::Key as View>::V> {
        Seq::new(self.keys@.len(), |i: int| self.keys@[i]@)
    }

    /// The record that lies in each slot, in slot order.
    pub closed spec fn slot_values(&self) -> Seq<V> {
        self.values@
    }

    /// The slots enumerate the table: each slot holds a key of the table with its
    /// record, and each key of the table lies in exactly one slot.
    pub proof fn lemma_slots(&self)
        requires
            self.wf(),
        ensures
            self.slot_keys().len() == self.slot_values().len(),
            self.slot_keys().no_duplicates(),
            forall|i: int|
                0 <= i < self.slot_keys().len() ==> self@.dom().contains(#[trigger] self.slot_keys()[i])
                    && self@[self.slot_keys()[i]] == self.slot_values()[i]@,
            forall|i: int| 0 <= i < self.slot_values().len() ==> (#[trigger] self.slot_values()[i]).wf(),
            forall|k: <I::Key as View>::V| #[trigger]
                self@.dom().contains(k) ==> self.slot_keys().contains(k),
    {
        assert forall|k: <I::Key as View>::V| #[trigger]
            self@.dom().contains(k) implies self.slot_keys().contains(k) by {
            let s = self.index.slots()[k] as int;
            assert(self.slot_keys()[s] == k);
        }
    }

    /// An empty table.
    pub fn new() -> (table: Self)
        ensures
            table.wf(),
            table@ == (Map::<<I::Key as View>::V, V::V>::empty()),
    {
        let table = Registry { index: I::with_capacity(8), keys: Vec::new(), values: Vec::new() };
        assert(table@ =~= Map::<<I::Key as View>::V, V::V>::empty());
        table
    }

    /// The number of records.
    pub fn len(&self) -> (n: usize)
        ensures
            n == self.slot_keys().len(),
    {
        self.keys.len()
    }

    /// The key in slot `i`.
    pub fn key_at(&self, i: usize) -> (key: &I::Key)
        requires
            i < self.slot_keys().len(),
        ensures
            key@ == self.slot_keys()[i as int],
    {
        &self.keys[i]
    }

    /// The record in slot `i`.
    pub fn value_at(&self, i: usize) -> (value: &V)
        requires
            self.wf(),
            i < self.slot_keys().len(),
        ensures
            *value == self.slot_values()[i as int],
    {
        &self.values[i]
    }

    /// Whether the table holds a record under `key`.
    pub fn contains_key(&self, key: &I::Key) -> (held: bool)
        ensures
            held == self@.dom().contains(key@),
    {
        self.index.slot_of(key).is_some()
    }

    /// The record under `key`, if the table holds one.
    pub fn get(&self, key: &I::Key) -> (found: Option<&V>)
        requires
            self.wf(),
        ensures
            found is Some == self@.dom().contains(key@),
            found matches Some(record) ==> record@ == self@[key@] && record.wf(),
    {
        match self.index.slot_of(key) {
            Some(slot) => Some(&self.values[slot]),
            None => None,
        }
    }

    /// Stores `value` under `key`, in place of the record that was there, if any.
    pub fn insert(&mut self, key: I::Key, value: V)
        requires
            old(self).wf(),
            value.wf(),
        ensures
            final(self).wf(),
            final(self)@ == old(self)@.insert(key@, value@),
    {
        match self.index.slot_of(&key) {
            Some(slot) => {
                self.values.set(slot, value);
            },
            None => {
                let slot = self.keys.len();
                let held = I::copy_key(&key);
                self.index.assign(key, slot);
                self.keys.push(held);
                self.values.push(value);
            },
        }
        assert(self@ =~= old(self)@.insert(key@, value@));
    }

    /// Takes the record in `slot` out of the table; the record of the last slot
    /// moves into its place.
    fn take_slot(&mut self, slot: usize) -> (record: V)
        requires
            old(self).wf(),
            slot < old(self).keys@.len(),
        ensures
            final(self).wf(),
            final(self)@ == old(self)@.remove(old(self).keys@[slot as int]@),
            record == old(self).values@[slot as int],
            final(self).keys@ == old(self).keys@.update(slot as int, old(self).keys@.last()).drop_last(),
    {
        let last = self.keys.len() - 1;
        let key = I::copy_key(&self.keys[slot]);
        self.index.release(&key);
        if slot != last {
            let moved = I::copy_key(&self.keys[last]);
            self.index.assign(moved, slot);
        }
        let _ = self.keys.swap_remove(slot);
        let record = self.values.swap_remove(slot);
        assert(self@ =~= old(self)@.remove(key@));
        record
    }

    /// Takes the record under `key` out of the table, if there is one.
    pub fn remove(&mut self, key: &I::Key) -> (taken: Option<V>)
        requires
            old(self).wf(),
        ensures
            final(self).wf(),
            final(self)@ == old(self)@.remove(key@),
            taken is Some == old(self)@.dom().contains(key@),
            taken matches Some(record) ==> record@ == old(self)@[key@] && record.wf(),
    {
        match self.index.slot_of(key) {
            None => {
                assert(self@ =~= old(self)@.remove(key@));
                None
            },
            Some(slot) => Some(self.take_slot(slot)),
        }
    }

    /// The table holds as many records as it has slots.
    pub proof fn lemma_len(&self)
        requires
            self.wf(),
        ensures
            self@.dom().finite(),
            self@.dom().len() == self.slot_keys().len(),
    {
        self.lemma_slots();
        assert(self@.dom() =~= self.slot_keys().to_set());
        vstd::seq_lib::seq_to_set_is_finite(self.slot_keys());
        self.slot_keys().unique_seq_to_set();
    }
}

impl<V: Record> Registry<NameIndex, V> {
    /// Removes every record whose key begins with `prefix`.
    pub fn remove_prefixed(&mut self, prefix: &String)
        requires
            old(self).wf(),
        ensures
            final(self).wf(),
            final(self)@ == old(self)@.remove_keys(Set::new(|k: Seq<char>| prefix@.is_prefix_of(k))),
    {
        let mut i: usize = 0;
        while i < self.keys.len()
            invariant
                self.wf(),
                i <= self.keys@.len(),
                forall|j: int| 0 <= j < i ==> !prefix@.is_prefix_of(#[trigger] self.keys@[j]@),
                forall|k: Seq<char>| #[trigger]
                    self@.dom().contains(k) ==> old(self)@.dom().contains(k) && self@[k] == old(
                        self,
                    )@[k],
                forall|k: Seq<char>|
                    old(self)@.dom().contains(k) && !prefix@.is_prefix_of(k)
                        ==> #[trigger] self@.dom().contains(k),
            decreases self.keys@.len() - i,
        {
            if has_prefix(&self.keys[i], prefix) {
                let _ = self.take_slot(i);
            } else {
                i += 1;
            }
        }
        assert(self@ =~= old(self)@.remove_keys(Set::new(|k: Seq<char>| prefix@.is_prefix_of(k)))) by {
            assert forall|k: Seq<char>| self@.dom().contains(k) implies !prefix@.is_prefix_of(k) by {
                let s = self.index.slots()[k] as int;
                assert(self.keys@[s]@ == k);
            }
        }
    }
}

} // verus!
