//! The durable structures the store is built on, and what is taken on trust about them.
//!
//! Two structures of `ic_stable_structures` keep the state: a cell that holds one
//! `u64`, and an ordered map from `u64` to a bounded run of bytes. Verus cannot look
//! inside either, so each is held in a struct with a hidden body, its contents are
//! given a name, and every method the store calls goes through one function here
//! whose contract is believed, not proved.
//!
//! One thing makes the outside code stop the process, and no contract here speaks
//! of it: a memory that cannot grow any further.

use ic_stable_structures::memory_manager::{MemoryId, MemoryManager, VirtualMemory};
use ic_stable_structures::storable::Blob;
use ic_stable_structures::{Cell, DefaultMemoryImpl, StableBTreeMap};
use vstd::prelude::*;

verus! {

/// The greatest number of bytes one stored record may take.
pub const MAX_RECORD_SIZE: usize = 1024;

/// A durable cell holding one `u64`: `ic_stable_structures::Cell` over one partition.
#[verifier::external_body]
pub struct CounterCell {
    inner: Cell<u64, VirtualMemory<DefaultMemoryImpl>>,
}

/// A durable ordered map from `u64` to at most `MAX_RECORD_SIZE` bytes:
/// `ic_stable_structures::StableBTreeMap` over one partition.
#[verifier::external_body]
pub struct RecordMap {
    inner: StableBTreeMap<u64, Blob<1024>, VirtualMemory<DefaultMemoryImpl>>,
}

/// The value that a counter cell holds.
pub uninterp spec fn counter_value(cell: CounterCell) -> u64;

/// The entries that a record map holds, each value as the bytes that were stored.
pub uninterp spec fn stored_bytes(map: RecordMap) -> Map<u64, Seq<u8>>;

/// The partition of the durable memory that a counter cell was opened in.
pub uninterp spec fn counter_partition(cell: CounterCell) -> u8;

/// The partition of the durable memory that a record map was opened in.
pub uninterp spec fn records_partition(map: RecordMap) -> u8;

/// Opens the two structures in the default memory, which it makes itself with
/// `DefaultMemoryImpl::default`: one `MemoryManager::init`, one `MemoryManager::get`
/// for each of the two partitions, `Cell::init` and `StableBTreeMap::init`. Each
/// structure lies in the partition asked for. Outside a canister the default
/// memory is a new, blank one; in a canister it is the stable memory, which holds
/// what these structures wrote there before. What it holds is loaded, so nothing
/// is claimed of the contents; `None` stands for the error of `Cell::init`. The partition numbers must differ, for the two structures to be
/// apart, and must not be 255, which `MemoryId::new` refuses.
#[verifier::external_body]
pub(crate) fn open_structures(
    counter_at: u8,
    records_at: u8,
    seed: u64,
) -> (opened: Option<(CounterCell, RecordMap)>)
    requires
        counter_at != records_at,
        counter_at < 255,
        records_at < 255,
    ensures
        opened matches Some((cell, map)) ==> counter_partition(cell) == counter_at
            && records_partition(map) == records_at,
{
    let manager = MemoryManager::init(DefaultMemoryImpl::default());
    let cell = Cell::init(manager.get(MemoryId::new(counter_at)), seed).ok()?;
    let map = StableBTreeMap::init(manager.get(MemoryId::new(records_at)));
    Some((CounterCell { inner: cell }, RecordMap { inner: map }))
}

/// `Cell::get`: the value the cell holds.
#[verifier::external_body]
pub(crate) fn read_counter(cell: &CounterCell) -> (value: u64)
    ensures
        value == counter_value(*cell),
{
    *cell.inner.get()
}

/// `Cell::set`: on success the cell holds `value`; on failure (the memory could
/// not take the value) it holds what it held before. The cell stays in its
/// partition.
#[verifier::external_body]
pub(crate) fn write_counter(cell: &mut CounterCell, value: u64) -> (written: bool)
    ensures
        written ==> counter_value(*final(cell)) == value,
        !written ==> counter_value(*final(cell)) == counter_value(*old(cell)),
        counter_partition(*final(cell)) == counter_partition(*old(cell)),
{
    cell.inner.set(value).is_ok()
}

/// `StableBTreeMap::contains_key`.
#[verifier::external_body]
pub(crate) fn holds_key(map: &RecordMap, id: u64) -> (found: bool)
    ensures
        found == stored_bytes(*map).contains_key(id),
{
    map.inner.contains_key(&id)
}

/// `StableBTreeMap::get`: the bytes stored under `id`, if any.
#[verifier::external_body]
pub(crate) fn fetch(map: &RecordMap, id: u64) -> (found: Option<Vec<u8>>)
    ensures
        found is Some == stored_bytes(*map).contains_key(id),
        found matches Some(bytes) ==> bytes@ == stored_bytes(*map)[id],
{
    map.inner.get(&id).map(|blob| blob.as_slice().to_vec())
}

/// `StableBTreeMap::insert`: afterwards `id` maps to `bytes` and every other entry
/// is as before; the result is what `id` mapped to before. The map stays in its
/// partition. A value longer than the bound makes the outside code stop, so the
/// bound is required.
#[verifier::external_body]
pub(crate) fn put(map: &mut RecordMap, id: u64, bytes: &Vec<u8>) -> (previous: Option<Vec<u8>>)
    requires
        bytes@.len() <= MAX_RECORD_SIZE,
    ensures
        stored_bytes(*final(map)) == stored_bytes(*old(map)).insert(id, bytes@),
        records_partition(*final(map)) == records_partition(*old(map)),
        previous is Some == stored_bytes(*old(map)).contains_key(id),
        previous matches Some(before) ==> before@ == stored_bytes(*old(map))[id],
{
    let blob = Blob::try_from(bytes.as_slice()).unwrap();
    map.inner.insert(id, blob).map(|before| before.as_slice().to_vec())
}

/// `StableBTreeMap::remove`: afterwards `id` is absent and every other entry is as
/// before; the result is what `id` mapped to before. The map stays in its
/// partition.
#[verifier::external_body]
pub(crate) fn take(map: &mut RecordMap, id: u64) -> (previous: Option<Vec<u8>>)
    ensures
        stored_bytes(*final(map)) == stored_bytes(*old(map)).remove(id),
        records_partition(*final(map)) == records_partition(*old(map)),
        previous is Some == stored_bytes(*old(map)).contains_key(id),
        previous matches Some(before) ==> before@ == stored_bytes(*old(map))[id],
{
    map.inner.remove(&id).map(|before| before.as_slice().to_vec())
}

/// `StableBTreeMap::iter`, collected: every entry of the map, once, in ascending
/// order of the keys.
#[verifier::external_body]
pub(crate) fn entries(map: &RecordMap) -> (all: Vec<(u64, Vec<u8>)>)
    ensures
        forall|i: int|
            0 <= i < all@.len() ==> stored_bytes(*map).contains_key(#[trigger] all@[i].0)
                && all@[i].1@ == stored_bytes(*map)[all@[i].0],
        forall|i: int, j: int| 0 <= i < j < all@.len() ==> #[trigger] all@[i].0 < #[trigger] all@[j].0,
        forall|id: u64| #[trigger]
            stored_bytes(*map).contains_key(id) ==> exists|i: int|
                0 <= i < all@.len() && #[trigger] all@[i].0 == id,
{
    map.inner.iter().map(|(id, blob)| (id, blob.as_slice().to_vec())).collect()
}

} // verus!
