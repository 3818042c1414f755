//! The counters that are kept in memory, in a `DashMap`.

use crate::entity::{Entity, EntityView};
use dashmap::DashMap;
use vstd::prelude::*;

verus! {

/// A concurrent hash map of the `dashmap` crate. The limiter changes it only where it has the
/// map for itself.
#[verifier::external_type_specification]
#[verifier::external_body]
#[verifier::reject_recursive_types(K)]
#[verifier::reject_recursive_types(V)]
#[verifier::reject_recursive_types(S)]
pub struct ExDashMap<K, V, S>(dashmap::DashMap<K, V, S>);

/// The counters that a map holds, by key.
pub uninterp spec fn counters(map: DashMap<String, Entity>) -> Map<Seq<char>, EntityView>;

/// `DashMap::new` makes an empty map.
#[verifier::external_body]
pub(crate) fn memory_new() -> (map: DashMap<String, Entity>)
    ensures
        (counters(map) == Map::<Seq<char>, EntityView>::empty()),
{
    DashMap::new()
}

/// `DashMap::get` finds the value that stands under the key, if any. The value is copied out.
#[verifier::external_body]
pub(crate) fn memory_get(map: &DashMap<String, Entity>, key: &String) -> (entity: Option<Entity>)
    ensures
        crate::entity::entity_view(entity) == counters(*map).get(key@),
{
    map.get(key).map(|entry| entry.value().clone())
}

/// `DashMap::insert` puts the value under the key, in place of what stood there.
#[verifier::external_body]
pub(crate) fn memory_insert(map: &mut DashMap<String, Entity>, key: String, entity: Entity)
    ensures
        counters(*final(map)) == counters(*old(map)).insert(key@, entity@),
{
    map.insert(key, entity);
}

/// `DashMap::remove` takes the entry of the key out, if there is one.
#[verifier::external_body]
pub(crate) fn memory_remove(map: &mut DashMap<String, Entity>, key: &String)
    ensures
        counters(*final(map)) == counters(*old(map)).remove(key@),
{
    map.remove(key);
}

/// `DashMap::len` counts the entries.
#[verifier::external_body]
pub(crate) fn memory_len(map: &DashMap<String, Entity>) -> (len: usize)
    ensures
        len as nat == counters(*map).len(),
{
    map.len()
}

/// `DashMap::capacity` returns the number of entries that the map has room for, at least as
/// many as it holds. How many more rests with the allocator.
///
/// Nor can it be room for more entries than memory holds, each with a word beside it. The map
/// consists of tables, each with an allocation of its own that has a slot per entry, and no two
/// allocations overlap. A table keeps at least one slot in eight empty. The slots that stay empty
/// make up for the words, as a key and a counter take more than seven words.
#[verifier::external_body]
pub(crate) fn memory_capacity(map: &DashMap<String, Entity>) -> (capacity: usize)
    ensures
        capacity as nat >= counters(*map).len(),
        capacity as nat * (vstd::layout::size_of::<String>() + vstd::layout::size_of::<Entity>()
            + vstd::layout::size_of::<usize>()) <= usize::MAX,
{
    map.capacity()
}

/// Whether a map may report to have room for `capacity` entries.
pub closed spec fn has_room_for(map: DashMap<String, Entity>, capacity: usize) -> bool {
    call_ensures(memory_capacity, (&map,), capacity)
}

/// A map has room for what it holds, and not for more than memory holds.
pub proof fn room_is_bounded(map: DashMap<String, Entity>, capacity: usize)
    requires
        has_room_for(map, capacity),
    ensures
        capacity as nat >= counters(map).len(),
        capacity as nat * (vstd::layout::size_of::<String>() + vstd::layout::size_of::<Entity>()
            + vstd::layout::size_of::<usize>()) <= usize::MAX,
{
}

/// Returns the number of entries that a map has room for.
pub(crate) fn room_of(map: &DashMap<String, Entity>) -> (capacity: usize)
    ensures
        has_room_for(*map, capacity),
{
    memory_capacity(map)
}

} // verus!
