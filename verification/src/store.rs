//! The byte tables that the registry persists its records in.
//!
//! A [`Table`] is a `StableBTreeMap` from byte strings to byte strings, held in
//! a virtual memory of its own. The functions of this file are trusted: Verus
//! reads their contracts and not their bodies. The contracts say, over
//! [`table_contents`], what the map's source shows of each call.
//!
//! None of the calls below can report that the underlying memory could not
//! grow: like an allocation failure, that ends the process.

use ic_stable_structures::memory_manager::{MemoryId, MemoryManager, VirtualMemory};
use ic_stable_structures::{DefaultMemoryImpl, StableBTreeMap};
use vstd::prelude::*;

verus! {

/// The longest key or value that a table holds: the map writes each length as
/// a `u32`.
pub const MAX_ENTRY_BYTES: usize = 0xffff_ffff;

/// Holds a `StableBTreeMap<Vec<u8>, Vec<u8>, _>` in a virtual memory of its own.
/// Verus cannot be told of the map's type, which is declared with traits of
/// its crate.
#[verifier::external_body]
pub struct Table {
    map: StableBTreeMap<Vec<u8>, Vec<u8>, VirtualMemory<DefaultMemoryImpl>>,
}

/// The key-value pairs that a table holds.
pub uninterp spec fn table_contents(t: Table) -> Map<Seq<u8>, Seq<u8>>;

/// `a` comes before `b` in the order of `Vec<u8>`, which is lexicographic.
pub open spec fn bytes_lt(a: Seq<u8>, b: Seq<u8>) -> bool {
    exists|i: int|
        0 <= i <= a.len() && i <= b.len() && #[trigger] a.take(i) == b.take(i) && if i == a.len() {
            i < b.len()
        } else {
            i < b.len() && a[i] < b[i]
        }
}

/// The contents of a table that holds nothing.
pub open spec fn no_entries() -> Map<Seq<u8>, Seq<u8>> {
    Map::empty()
}

/// The byte strings that a vector of keys stands for.
pub open spec fn key_views(keys: Seq<Vec<u8>>) -> Seq<Seq<u8>> {
    keys.map_values(|k: Vec<u8>| k@)
}

/// `MemoryManager::init` on `DefaultMemoryImpl::default()`, then
/// `StableBTreeMap::new` on five virtual memories of that manager: five empty
/// maps, whatever the memory held. The ids differ, so that no two maps share
/// a virtual memory, and 255 is no id (`MemoryId::new` panics). Outside a
/// canister the default memory is a new one at each call; in a canister it is
/// the canister's one stable memory, so that a canister calls this once.
#[verifier::external_body]
pub(crate) fn tables_new(ids: [u8; 5]) -> (t: (Table, Table, Table, Table, Table))
    requires
        forall|i: int, j: int| 0 <= i < j < 5 ==> ids@[i] != ids@[j],
        forall|i: int| 0 <= i < 5 ==> ids@[i] != 255,
    ensures
        table_contents(t.0) == no_entries(),
        table_contents(t.1) == no_entries(),
        table_contents(t.2) == no_entries(),
        table_contents(t.3) == no_entries(),
        table_contents(t.4) == no_entries(),
{
    let manager = MemoryManager::init(DefaultMemoryImpl::default());
    (
        Table { map: StableBTreeMap::new(manager.get(MemoryId::new(ids[0]))) },
        Table { map: StableBTreeMap::new(manager.get(MemoryId::new(ids[1]))) },
        Table { map: StableBTreeMap::new(manager.get(MemoryId::new(ids[2]))) },
        Table { map: StableBTreeMap::new(manager.get(MemoryId::new(ids[3]))) },
        Table { map: StableBTreeMap::new(manager.get(MemoryId::new(ids[4]))) },
    )
}

/// `StableBTreeMap::get`: the value stored under `key`, if there is one.
#[verifier::external_body]
pub(crate) fn table_get(t: &Table, key: &Vec<u8>) -> (value: Option<Vec<u8>>)
    ensures
        match value {
            Some(v) => table_contents(*t).dom().contains(key@) && v@ == table_contents(*t)[key@],
            None => !table_contents(*t).dom().contains(key@),
        },
{
    t.map.get(key)
}

/// `StableBTreeMap::contains_key`.
#[verifier::external_body]
pub(crate) fn table_contains_key(t: &Table, key: &Vec<u8>) -> (found: bool)
    ensures
        found == table_contents(*t).dom().contains(key@),
{
    t.map.contains_key(key)
}

/// `StableBTreeMap::insert`: stores `value` under `key`, in place of what was
/// there, and returns what was there. Longer keys or values than
/// [`MAX_ENTRY_BYTES`] are left out: the map would cut their length to 32 bits.
#[verifier::external_body]
pub(crate) fn table_insert(t: &mut Table, key: Vec<u8>, value: Vec<u8>) -> (previous: Option<
    Vec<u8>,
>)
    requires
        key@.len() <= MAX_ENTRY_BYTES,
        value@.len() <= MAX_ENTRY_BYTES,
    ensures
        table_contents(*final(t)) == table_contents(*old(t)).insert(key@, value@),
        match previous {
            Some(v) => table_contents(*old(t)).dom().contains(key@) && v@ == table_contents(
                *old(t),
            )[key@],
            None => !table_contents(*old(t)).dom().contains(key@),
        },
{
    t.map.insert(key, value)
}

/// `StableBTreeMap::len`: the number of keys.
#[verifier::external_body]
pub(crate) fn table_len(t: &Table) -> (n: u64)
    ensures
        n == table_contents(*t).dom().len(),
{
    t.map.len()
}

/// `StableBTreeMap::keys`, collected: every key once, in ascending order.
#[verifier::external_body]
pub(crate) fn table_keys(t: &Table) -> (keys: Vec<Vec<u8>>)
    ensures
        key_views(keys@).to_set() == table_contents(*t).dom(),
        forall|i: int, j: int|
            0 <= i < j < keys@.len() ==> bytes_lt(
                #[trigger] key_views(keys@)[i],
                #[trigger] key_views(keys@)[j],
            ),
{
    t.map.keys().collect()
}

} // verus!
