//! Where counters are kept, and what Redis reports of its memory.

use crate::errors::LimiterError;
use crate::text::{chars_of, find_from, parse_usize};
use core::time::Duration;
use vstd::prelude::*;

verus! {

#[derive(Debug, Clone, Copy, PartialEq, Eq, PartialOrd, Ord, Structural)]
pub enum StorageType {
    Redis,
    InMemory,
    RedisAndMemoryMix,
}

/// The settings of a limiter that is being built. `C` is the type of the Redis connection.
#[derive(Debug, Clone)]
pub struct StorageConfig<C> {
    pub storage_type: Option<StorageType>,
    pub redis_conn: Option<C>,
    /// In MB.
    pub max_memory_size: Option<u64>,
    /// In MB.
    pub max_redis_size: Option<u64>,
    pub acceptable_last_accesed_time_to_cache_redis_in_memory: Option<Duration>,
}

/// The fields that Redis reports of itself, kept in a `hashbrown::HashMap`.
#[verifier::external_body]
#[derive(Debug)]
pub struct InfoMap {
    fields: hashbrown::HashMap<String, String>,
}

/// The fields of an `InfoMap`: the text that stands under each name.
pub uninterp spec fn info_fields(map: InfoMap) -> Map<Seq<char>, Seq<char>>;

/// `hashbrown::HashMap::new` makes an empty map.
#[verifier::external_body]
fn info_new() -> (map: InfoMap)
    ensures
        (info_fields(map) == Map::<Seq<char>, Seq<char>>::empty()),
{
    InfoMap { fields: hashbrown::HashMap::new() }
}

/// `hashbrown::HashMap::insert` puts the value under the key, in place of what stood there.
#[verifier::external_body]
fn info_insert(map: &mut InfoMap, name: String, value: String)
    ensures
        info_fields(*final(map)) == info_fields(*old(map)).insert(name@, value@),
{
    map.fields.insert(name, value);
}

/// `hashbrown::HashMap::get` finds the value that stands under the key, if any.
#[verifier::external_body]
fn info_get(map: &InfoMap, name: &str) -> (value: Option<String>)
    ensures
        match value {
            Some(value) => info_fields(*map).contains_key(name@) && info_fields(*map)[name@]
                == value@,
            None => !info_fields(*map).contains_key(name@),
        },
{
    map.fields.get(name).cloned()
}

/// `hashbrown::HashMap::len` counts the entries.
#[verifier::external_body]
fn info_len(map: &InfoMap) -> (len: usize)
    ensures
        len as nat == info_fields(*map).len(),
{
    map.fields.len()
}

/// Whether these are the fields of a report, each once, in whatever order.
pub open spec fn lists(entries: Seq<(String, String)>, fields: Map<Seq<char>, Seq<char>>) -> bool {
    &&& forall|i: int|
        0 <= i < entries.len() ==> fields.contains_key((#[trigger] entries[i]).0@)
            && fields[entries[i].0@] == entries[i].1@
    &&& forall|i: int, j: int|
        0 <= i < j < entries.len() ==> (#[trigger] entries[i]).0@ != (#[trigger] entries[j]).0@
    &&& forall|name: Seq<char>| #[trigger]
        fields.contains_key(name) ==> exists|i: int|
            0 <= i < entries.len() && (#[trigger] entries[i]).0@ == name
}

/// `hashbrown::HashMap::iter` visits each entry once. The order is left open. The entries are
/// copied out.
#[verifier::external_body]
fn info_entries(map: &InfoMap) -> (entries: Vec<(String, String)>)
    ensures
        lists(entries@, info_fields(*map)),
{
    map.fields.iter().map(|(name, value)| (name.clone(), value.clone())).collect()
}

/// `hashbrown::HashMap::capacity` returns the number of entries that the map has room for, at
/// least as many as it holds. How many more rests with the allocator.
///
/// Nor can it be room for more than half of memory holds. The entries stand in one table, whose
/// allocation takes at most `isize::MAX` bytes, and the table keeps at least one slot in eight
/// empty. So twice the bytes of the entries, and those of the map itself, are no more than
/// `usize::MAX`.
#[verifier::external_body]
fn info_capacity(map: &InfoMap) -> (capacity: usize)
    ensures
        capacity as nat >= info_fields(*map).len(),
        capacity as nat * (vstd::layout::size_of::<(String, String)>()
            + vstd::layout::size_of::<String>() + vstd::layout::size_of::<String>())
            + vstd::layout::size_of::<InfoMap>() <= usize::MAX,
{
    map.fields.capacity()
}

/// Whether a map may report to have room for `capacity` fields.
pub closed spec fn has_room_for(map: InfoMap, capacity: usize) -> bool {
    call_ensures(info_capacity, (&map,), capacity)
}

/// A map has room for what it holds, and not for more than half of memory holds.
pub proof fn room_is_bounded(map: InfoMap, capacity: usize)
    requires
        has_room_for(map, capacity),
    ensures
        capacity as nat >= info_fields(map).len(),
        capacity as nat * (vstd::layout::size_of::<(String, String)>()
            + vstd::layout::size_of::<String>() + vstd::layout::size_of::<String>())
            + vstd::layout::size_of::<InfoMap>() <= usize::MAX,
{
}

impl InfoMap {
    /// Returns the value of a field, if there is one of that name.
    pub fn get(&self, name: &str) -> (value: Option<String>)
        ensures
            match value {
                Some(value) => info_fields(*self).contains_key(name@) && info_fields(*self)[name@]
                    == value@,
                None => !info_fields(*self).contains_key(name@),
            },
    {
        info_get(self, name)
    }

    /// Returns the number of fields.
    pub fn len(&self) -> (len: usize)
        ensures
            len as nat == info_fields(*self).len(),
    {
        info_len(self)
    }

    /// Returns the name and the value of each field, in whatever order.
    pub fn entries(&self) -> (entries: Vec<(String, String)>)
        ensures
            lists(entries@, info_fields(*self)),
    {
        info_entries(self)
    }
}

/// What a line of the report says: the name and the value of a field, where exactly one colon
/// stands in the line, between the two.
pub open spec fn field(line: Seq<char>) -> Option<(Seq<char>, Seq<char>)> {
    let colon = crate::text::find(line, ':');
    let value = line.skip(colon + 1);
    if colon < line.len() && crate::text::find(value, ':') == value.len() {
        Some((line.take(colon), value))
    } else {
        None
    }
}

/// The fields that lines report. Of two lines with one name the later one counts.
pub open spec fn fields(lines: Seq<Seq<char>>) -> Map<Seq<char>, Seq<char>>
    decreases lines.len(),
{
    if lines.len() == 0 {
        Map::empty()
    } else {
        let earlier = fields(lines.drop_last());
        match field(lines.last()) {
            Some((name, value)) => earlier.insert(name, value),
            None => earlier,
        }
    }
}

/// Reads the report that Redis gives of itself.
fn parse_info(info: &str) -> (map: InfoMap)
    ensures
        info_fields(map) == fields(crate::text::lines(info@)),
{
    let chars = chars_of(info);
    let mut map = info_new();
    let mut start: usize = 0;
    let ghost mut done: Seq<Seq<char>> = Seq::empty();
    assert(info@.skip(0) == info@);
    assert(done + crate::text::lines(info@) == crate::text::lines(info@));
    while start < chars.len()
        invariant
            start <= chars@.len(),
            chars@ == info@,
            crate::text::lines(info@) == done + crate::text::lines(info@.skip(start as int)),
            info_fields(map) == fields(done),
        decreases chars@.len() - start,
    {
        let ghost rest = info@.skip(start as int);
        let feed: usize = find_from(&chars, start, chars.len(), '\n');
        let end: usize = if feed < chars.len() && feed > start && chars[feed - 1] == '\r' {
            feed - 1
        } else {
            feed
        };
        let ghost line = info@.subrange(start as int, end as int);
        let next: usize = if feed < chars.len() {
            feed + 1
        } else {
            feed
        };
        proof {
            assert(chars@.subrange(start as int, chars@.len() as int) == rest);
            assert(crate::text::lines(rest) == seq![line] + crate::text::lines(
                info@.skip(next as int),
            )) by {
                if feed < chars@.len() {
                    assert(crate::text::without_return(crate::text::before(rest, '\n')) == line);
                    assert(rest.skip(feed - start + 1) == info@.skip(next as int));
                } else {
                    assert(rest == line);
                    assert(info@.skip(next as int) == Seq::<char>::empty());
                    assert(crate::text::lines(Seq::<char>::empty()) == Seq::<Seq<char>>::empty());
                }
            }
            assert(done + (seq![line] + crate::text::lines(info@.skip(next as int)))
                == done.push(line) + crate::text::lines(info@.skip(next as int)));
            assert(done.push(line).drop_last() == done);
        }
        let colon: usize = find_from(&chars, start, end, ':');
        if colon < end {
            assert(chars@.subrange(colon + 1, end as int) == line.skip(colon - start + 1));
            let second: usize = find_from(&chars, colon + 1, end, ':');
            if second == end {
                let name = info.substring_char(start, colon).to_owned();
                let value = info.substring_char(colon + 1, end).to_owned();
                assert(name@ == line.take(colon - start));
                assert(value@ == line.skip(colon - start + 1));
                info_insert(&mut map, name, value);
            }
        }
        proof {
            done = done.push(line);
        }
        start = next;
    }
    proof {
        assert(info@.skip(start as int) == Seq::<char>::empty());
        assert(crate::text::lines(Seq::<char>::empty()) == Seq::<Seq<char>>::empty());
        assert(done + Seq::<Seq<char>>::empty() == done);
    }
    map
}

/// Reads the reply to `INFO`.
pub fn get_redis_info<E>(reply: Result<String, E>) -> (info: Result<InfoMap, LimiterError>)
    ensures
        match reply {
            Ok(text) => info matches Ok(map) && info_fields(map) == fields(
                crate::text::lines(text@),
            ),
            Err(_) => info == Err::<InfoMap, _>(LimiterError::RedisSetError),
        },
{
    match reply {
        Ok(text) => Ok(parse_info(text.as_str())),
        Err(_) => Err(LimiterError::RedisSetError),
    }
}

/// The number of bytes that a report says Redis uses: what its field `used_memory` holds,
/// where that is a number that fits.
pub open spec fn used_memory(fields: Map<Seq<char>, Seq<char>>) -> Result<usize, LimiterError> {
    let name = "used_memory"@;
    if fields.contains_key(name) {
        match crate::text::unsigned(fields[name]) {
            Some(bytes) if bytes <= usize::MAX => Ok(bytes as usize),
            _ => Err(LimiterError::RedisGetUsageMemoryError),
        }
    } else {
        Err(LimiterError::RedisGetUsageMemoryError)
    }
}

/// Reads from the reply to `INFO` how many bytes of memory Redis uses.
pub fn get_redis_memory_usage<E>(reply: Result<String, E>) -> (usage: Result<
    usize,
    LimiterError,
>)
    ensures
        usage == (match reply {
            Ok(text) => used_memory(fields(crate::text::lines(text@))),
            Err(_) => Err(LimiterError::RedisSetError),
        }),
{
    let info = match get_redis_info(reply) {
        Ok(info) => info,
        Err(error) => return Err(error),
    };
    match info.get("used_memory") {
        Some(value) => match parse_usize(value.as_str()) {
            Some(bytes) => Ok(bytes),
            None => Err(LimiterError::RedisGetUsageMemoryError),
        },
        None => Err(LimiterError::RedisGetUsageMemoryError),
    }
}

/// Returns the size of a value's type, in bytes.
pub fn size_of_val<T>(_value: &T) -> (size: usize)
    ensures
        size as nat == vstd::layout::size_of::<T>(),
{
    core::mem::size_of::<T>()
}

/// The bytes that a hash table takes: the table itself, room for as many entries as it has
/// capacity for, and each key and value that it holds.
pub open spec fn table_bytes<K, V>(table: nat, capacity: nat, len: nat) -> nat {
    table + capacity * vstd::layout::size_of::<(K, V)>() + len * vstd::layout::size_of::<K>() + len
        * vstd::layout::size_of::<V>()
}

/// A number as a `usize`, where it fits.
pub open spec fn as_usize(n: nat) -> Option<usize> {
    if n <= usize::MAX {
        Some(n as usize)
    } else {
        None
    }
}

/// Returns the product of two numbers plus a third, where that fits.
pub(crate) fn mul_then_sum(a: usize, b: usize, c: Option<usize>) -> (sum: Option<usize>)
    ensures
        sum == (match c {
            Some(c) => as_usize(a as nat * b as nat + c as nat),
            None => None,
        }),
{
    proof {
        vstd::arithmetic::mul::lemma_mul_nonnegative(a as int, b as int);
    }
    match (a.checked_mul(b), c) {
        (Some(product), Some(c)) => product.checked_add(c),
        _ => None,
    }
}

/// Returns the number of bytes that a table of keys `K` and values `V` takes, itself of
/// `table` bytes, with room for `capacity` entries, `len` of them in use; `None` where the
/// number does not fit.
pub fn hash_table_size<K, V>(table: usize, capacity: usize, len: usize) -> (size: Option<usize>)
    ensures
        size == as_usize(table_bytes::<K, V>(table as nat, capacity as nat, len as nat)),
{
    proof {
        vstd::arithmetic::mul::lemma_mul_nonnegative(
            len as int,
            vstd::layout::size_of::<K>() as int,
        );
        vstd::arithmetic::mul::lemma_mul_nonnegative(
            len as int,
            vstd::layout::size_of::<V>() as int,
        );
    }
    let buckets = mul_then_sum(capacity, core::mem::size_of::<(K, V)>(), Some(table));
    let keys = mul_then_sum(len, core::mem::size_of::<K>(), buckets);
    mul_then_sum(len, core::mem::size_of::<V>(), keys)
}

/// Where a table has room for what it holds, its bytes are at most those of the table itself and
/// of a slot, a key and a value per entry that there is room for.
pub proof fn table_bytes_are_bounded<K, V>(table: nat, capacity: nat, len: nat)
    requires
        len <= capacity,
    ensures
        table_bytes::<K, V>(table, capacity, len) <= capacity * (vstd::layout::size_of::<(K, V)>()
            + vstd::layout::size_of::<K>() + vstd::layout::size_of::<V>()) + table,
{
    let slot = vstd::layout::size_of::<(K, V)>();
    let key = vstd::layout::size_of::<K>();
    let value = vstd::layout::size_of::<V>();
    assert(table + capacity * slot + len * key + len * value <= capacity * (slot + key + value)
        + table) by (nonlinear_arith)
        requires
            len <= capacity,
    ;
}

/// Returns the number of bytes that a map of fields takes.
pub fn get_hashmap_memory_size(map: &InfoMap) -> (size: usize)
    ensures
        exists|capacity: usize| #[trigger]
            has_room_for(*map, capacity) && size as nat == table_bytes::<String, String>(
                vstd::layout::size_of::<InfoMap>(),
                capacity as nat,
                info_fields(*map).len(),
            ),
{
    let capacity: usize = info_capacity(map);
    let len: usize = info_len(map);
    proof {
        assert(has_room_for(*map, capacity));
        table_bytes_are_bounded::<String, String>(
            vstd::layout::size_of::<InfoMap>(),
            capacity as nat,
            len as nat,
        );
    }
    hash_table_size::<String, String>(core::mem::size_of::<InfoMap>(), capacity, len).unwrap()
}

} // verus!
