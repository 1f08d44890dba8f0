//! Persistent string-keyed stores: the configuration with the cursor, and the
//! two append-only transaction ledgers.

use vstd::prelude::*;
use ic_stable_structures::memory_manager::{MemoryId, MemoryManager, VirtualMemory};
use ic_stable_structures::{DefaultMemoryImpl, StableBTreeMap};

verus! {

/// The key of an entry.
#[derive(Debug, PartialEq)]
pub struct KeyName(pub String);

/// The value of an entry.
#[derive(Debug, PartialEq)]
pub struct KeyValue(pub String);

/// The stable memory that the stores are carved from.
///
/// Holds an `ic_stable_structures::memory_manager::MemoryManager`, whose
/// declaration is bounded by a trait of that crate.
#[verifier::external_body]
pub struct StoreMemory {
    manager: MemoryManager<DefaultMemoryImpl>,
}

/// One persistent map from text to text.
///
/// Holds an `ic_stable_structures::StableBTreeMap` with `String` keys and
/// values, whose declaration is bounded by traits of that crate.
#[verifier::external_body]
pub struct KeyValueStore {
    map: StableBTreeMap<String, String, VirtualMemory<DefaultMemoryImpl>>,
}

/// What a store holds: the value stored under each key.
pub uninterp spec fn stored_entries(store: KeyValueStore) -> Map<Seq<char>, Seq<char>>;

/// The order of keys in a store: by the first character in which two keys
/// differ, a proper prefix first. This is the order of `String`.
pub open spec fn text_lt(a: Seq<char>, b: Seq<char>) -> bool
    decreases a.len(),
{
    if b.len() == 0 {
        false
    } else if a.len() == 0 {
        true
    } else if a[0] != b[0] {
        a[0] < b[0]
    } else {
        text_lt(a.drop_first(), b.drop_first())
    }
}

/// Whether `pairs` lists every entry of `entries` once, by ascending key.
pub open spec fn lists_entries(
    pairs: Seq<(String, String)>,
    entries: Map<Seq<char>, Seq<char>>,
) -> bool {
    &&& forall|i: int|
        0 <= i < pairs.len() ==> entries.contains_key(#[trigger] pairs[i].0@) && entries[pairs[i].0@]
            == pairs[i].1@
    &&& forall|i: int, j: int|
        0 <= i < j < pairs.len() ==> text_lt(#[trigger] pairs[i].0@, #[trigger] pairs[j].0@)
    &&& forall|key: Seq<char>| #[trigger]
        entries.contains_key(key) ==> exists|i: int| 0 <= i < pairs.len() && pairs[i].0@ == key
}

/// Whether `values` holds the values of `entries`, by ascending key.
pub open spec fn lists_values(values: Seq<KeyValue>, entries: Map<Seq<char>, Seq<char>>) -> bool {
    exists|pairs: Seq<(String, String)>|
        lists_entries(pairs, entries) && pairs.len() == values.len() && forall|i: int|
            0 <= i < values.len() ==> (#[trigger] values[i]).0@ == pairs[i].1@
}

/// Takes hold of the host's stable memory with `MemoryManager::init` on
/// `DefaultMemoryImpl::default()`. Nothing is promised of what the memory holds.
#[verifier::external_body]
fn host_memory() -> (memory: StoreMemory) {
    StoreMemory { manager: MemoryManager::init(DefaultMemoryImpl::default()) }
}

/// Opens the map in region `id` of `memory` with `MemoryManager::get` and
/// `StableBTreeMap::init`: the map found there, or a new one. Region 255 is
/// reserved by the memory manager. Nothing is promised of what the map holds.
/// Two maps opened in one region share their entries, so each region is opened
/// once.
#[verifier::external_body]
fn open_store(memory: &StoreMemory, id: u8) -> (store: KeyValueStore)
    requires
        id < 255,
{
    KeyValueStore { map: StableBTreeMap::init(memory.manager.get(MemoryId::new(id))) }
}

/// Looks a key up with `StableBTreeMap::get`. Trusted: the result is the value
/// that the map holds under `key`, if it holds one.
#[verifier::external_body]
fn store_get(store: &KeyValueStore, key: &String) -> (value: Option<String>)
    ensures
        value is Some <==> stored_entries(*store).contains_key(key@),
        value matches Some(v) ==> v@ == stored_entries(*store)[key@],
{
    store.map.get(key)
}

/// Writes an entry with `StableBTreeMap::insert`. Trusted: afterwards the map
/// holds `value` under `key` and is otherwise unchanged, and the result is the
/// value that `key` had before, if it had one. The map stops the program when
/// the host has no stable memory left to grow into, as a `Vec` does when the
/// heap is used up; no contract can rule that out.
#[verifier::external_body]
fn store_insert(store: &mut KeyValueStore, key: String, value: String) -> (previous: Option<String>)
    ensures
        stored_entries(*final(store)) == stored_entries(*old(store)).insert(key@, value@),
        previous is Some <==> stored_entries(*old(store)).contains_key(key@),
        previous matches Some(v) ==> v@ == stored_entries(*old(store))[key@],
{
    store.map.insert(key, value)
}

/// Collects what `StableBTreeMap::iter` yields. Trusted: the iterator yields
/// every entry of the map once, by ascending key.
#[verifier::external_body]
fn store_pairs(store: &KeyValueStore) -> (pairs: Vec<(String, String)>)
    ensures
        lists_entries(pairs@, stored_entries(*store)),
{
    store.map.iter().collect()
}

impl View for KeyValueStore {
    type V = Map<Seq<char>, Seq<char>>;

    open spec fn view(&self) -> Map<Seq<char>, Seq<char>> {
        stored_entries(*self)
    }
}

impl KeyValueStore {
    /// The value stored under `key`. A missing key is no error.
    pub fn get(&self, key: &String) -> (value: Option<String>)
        ensures
            value is Some <==> self@.contains_key(key@),
            value matches Some(v) ==> v@ == self@[key@],
    {
        store_get(self, key)
    }

    /// Stores `value` under `key` and returns the value it replaces.
    pub fn set(&mut self, key: String, value: String) -> (previous: Option<String>)
        ensures
            final(self)@ == old(self)@.insert(key@, value@),
            previous is Some <==> old(self)@.contains_key(key@),
            previous matches Some(v) ==> v@ == old(self)@[key@],
    {
        store_insert(self, key, value)
    }

    /// The stored values, by ascending key.
    pub fn values(&self) -> (values: Vec<KeyValue>)
        ensures
            lists_values(values@, self@),
    {
        let pairs = store_pairs(self);
        let mut values: Vec<KeyValue> = Vec::new();
        let mut i: usize = 0;
        while i < pairs.len()
            invariant
                i <= pairs.len(),
                values.len() == i,
                forall|j: int| 0 <= j < i ==> (#[trigger] values@[j]).0@ == pairs@[j].1@,
            decreases pairs.len() - i,
        {
            values.push(KeyValue(pairs[i].1.clone()));
            i += 1;
        }
        assert(lists_entries(pairs@, self@) && pairs@.len() == values@.len());
        values
    }
}

/// The relay's persistent state.
pub struct BridgeStores {
    /// Long-lived configuration and the cursor of the last processed event.
    pub config: KeyValueStore,
    /// Completed withdrawals, keyed by ledger block index.
    pub finalized: KeyValueStore,
    /// Completed mints, keyed by ledger block index.
    pub minted: KeyValueStore,
}

impl BridgeStores {
    /// Opens the three stores in the host's stable memory, each in a region of
    /// its own: what an earlier run left there, or empty stores.
    pub fn open() -> (stores: BridgeStores) {
        let memory = host_memory();
        BridgeStores {
            config: open_store(&memory, 0),
            finalized: open_store(&memory, 1),
            minted: open_store(&memory, 2),
        }
    }
}

/// The configuration value stored under `key`.
pub fn get(stores: &BridgeStores, key: String) -> (value: Option<String>)
    ensures
        value is Some <==> stores.config@.contains_key(key@),
        value matches Some(v) ==> v@ == stores.config@[key@],
{
    stores.config.get(&key)
}

/// Stores a configuration value and returns the value it replaces. The ledgers
/// stay as they are.
pub fn insert(stores: &mut BridgeStores, key: String, value: String) -> (previous: Option<String>)
    ensures
        final(stores).config@ == old(stores).config@.insert(key@, value@),
        final(stores).minted@ == old(stores).minted@,
        final(stores).finalized@ == old(stores).finalized@,
        previous is Some <==> old(stores).config@.contains_key(key@),
        previous matches Some(v) ==> v@ == old(stores).config@[key@],
{
    stores.config.set(key, value)
}

/// Records a completed mint and returns the record it replaces.
pub fn insert_mint_tx(stores: &mut BridgeStores, key: String, value: String) -> (previous: Option<
    String,
>)
    ensures
        final(stores).minted@ == old(stores).minted@.insert(key@, value@),
        final(stores).config@ == old(stores).config@,
        final(stores).finalized@ == old(stores).finalized@,
        previous is Some <==> old(stores).minted@.contains_key(key@),
        previous matches Some(v) ==> v@ == old(stores).minted@[key@],
{
    stores.minted.set(key, value)
}

/// Records a completed withdrawal and returns the record it replaces.
pub fn insert_withdraw_tx(stores: &mut BridgeStores, key: String, value: String) -> (previous:
    Option<String>)
    ensures
        final(stores).finalized@ == old(stores).finalized@.insert(key@, value@),
        final(stores).config@ == old(stores).config@,
        final(stores).minted@ == old(stores).minted@,
        previous is Some <==> old(stores).finalized@.contains_key(key@),
        previous matches Some(v) ==> v@ == old(stores).finalized@[key@],
{
    stores.finalized.set(key, value)
}

/// The records of all completed mints, by ascending key.
pub fn get_minted_transactions(stores: &BridgeStores) -> (records: Vec<KeyValue>)
    ensures
        lists_values(records@, stores.minted@),
{
    stores.minted.values()
}

/// The records of all completed withdrawals, by ascending key.
pub fn get_finalized_transactions(stores: &BridgeStores) -> (records: Vec<KeyValue>)
    ensures
        lists_values(records@, stores.finalized@),
{
    stores.finalized.values()
}

} // verus!
