//! What holds of the sizes that are estimated and of the figures that the checks record.

use crate::entity::Entity;
use crate::errors::LimiterError;
use crate::memory_check::Usage;
use crate::model::LimiterView;
use vstd::prelude::*;

verus! {

/// The estimate for a concurrent map grows by a key and a value with each entry, and by a word
/// with each entry that there is room for.
pub proof fn estimate_grows_by_the_entry<K, V>(len: nat, capacity: nat)
    ensures
        crate::memory_check::approx_bytes::<K, V>(0, 0) == 0,
        crate::memory_check::approx_bytes::<K, V>(len + 1, capacity)
            == crate::memory_check::approx_bytes::<K, V>(len, capacity) + vstd::layout::size_of::<
            K,
        >() + vstd::layout::size_of::<V>(),
        crate::memory_check::approx_bytes::<K, V>(len, capacity + 1)
            == crate::memory_check::approx_bytes::<K, V>(len, capacity) + vstd::layout::size_of::<
            usize,
        >(),
{
    let entry = vstd::layout::size_of::<K>() + vstd::layout::size_of::<V>();
    let word = vstd::layout::size_of::<usize>();
    assert((len + 1) * entry == len * entry + entry) by (nonlinear_arith);
    assert((capacity + 1) * word == capacity * word + word) by (nonlinear_arith);
    assert(0 * entry == 0 && 0 * word == 0) by (nonlinear_arith);
}

/// The size of a hash table grows by a slot with each entry that there is room for, and by a key
/// and a value with each entry.
pub proof fn table_grows_by_the_entry<K, V>(table: nat, capacity: nat, len: nat)
    ensures
        crate::storage::table_bytes::<K, V>(table, 0, 0) == table,
        crate::storage::table_bytes::<K, V>(table, capacity + 1, len)
            == crate::storage::table_bytes::<K, V>(table, capacity, len) + vstd::layout::size_of::<
            (K, V),
        >(),
        crate::storage::table_bytes::<K, V>(table, capacity, len + 1)
            == crate::storage::table_bytes::<K, V>(table, capacity, len) + vstd::layout::size_of::<
            K,
        >() + vstd::layout::size_of::<V>(),
{
    let slot = vstd::layout::size_of::<(K, V)>();
    let key = vstd::layout::size_of::<K>();
    let value = vstd::layout::size_of::<V>();
    assert((len + 1) * key == len * key + key) by (nonlinear_arith);
    assert((len + 1) * value == len * value + value) by (nonlinear_arith);
    assert((capacity + 1) * slot == capacity * slot + slot) by (nonlinear_arith);
    assert(0 * slot == 0 && 0 * key == 0 && 0 * value == 0) by (nonlinear_arith);
}

/// A size is returned exactly if it fits.
pub proof fn sizes_are_returned_where_they_fit<K, V>(
    table: usize,
    capacity: usize,
    len: usize,
    size: Option<usize>,
)
    requires
        call_ensures(crate::storage::hash_table_size::<K, V>, (table, capacity, len), size),
    ensures
        ({
            let bytes = crate::storage::table_bytes::<K, V>(
                table as nat,
                capacity as nat,
                len as nat,
            );
            match size {
                Some(size) => size as nat == bytes,
                None => bytes > usize::MAX,
            }
        }),
{
}

/// An estimate is returned exactly if it fits.
pub proof fn estimates_are_returned_where_they_fit<K, V>(
    len: usize,
    capacity: usize,
    size: Option<usize>,
)
    requires
        call_ensures(crate::memory_check::approx_memory_size::<K, V>, (len, capacity), size),
    ensures
        ({
            let bytes = crate::memory_check::approx_bytes::<K, V>(len as nat, capacity as nat);
            match size {
                Some(size) => size as nat == bytes,
                None => bytes > usize::MAX,
            }
        }),
{
}

/// Double precision has 53 significant bits: the distance between represented numbers is a power
/// of two, such that a number holds it at least as often as the 53 bits can count, and less than
/// twice as often; below that it is one.
pub proof fn doubles_have_53_bits(n: nat) -> (bits: nat)
    ensures
        crate::memory_check::spacing(n) == vstd::arithmetic::power2::pow2(bits),
        n < 0x20_0000_0000_0000 ==> bits == 0,
        n >= 0x20_0000_0000_0000 ==> 0x10_0000_0000_0000 * vstd::arithmetic::power2::pow2(bits) <= n
            < 0x20_0000_0000_0000 * vstd::arithmetic::power2::pow2(bits),
    decreases n,
{
    if n < 0x20_0000_0000_0000 {
        vstd::arithmetic::power2::lemma2_to64();
        0
    } else {
        let below = doubles_have_53_bits(n / 2);
        let bits = below + 1;
        vstd::arithmetic::power2::lemma_pow2_unfold(bits);
        vstd::arithmetic::power2::lemma2_to64();
        bits
    }
}

/// A number in double precision is a multiple of the distance between represented numbers, no
/// further than half of it away; of two as near it is the even multiple.
pub proof fn doubles_are_nearest(n: nat)
    ensures
        ({
            let step = crate::memory_check::spacing(n);
            let double = crate::memory_check::in_double(n);
            &&& step > 0
            &&& double % step == 0
            &&& 2 * (double - n) <= step
            &&& 2 * (n - double) <= step
            &&& 2 * (double - n) == step || 2 * (n - double) == step ==> (double / step) % 2 == 0
        }),
{
    let bits = doubles_have_53_bits(n);
    vstd::arithmetic::power2::lemma_pow2_pos(bits);
    let step = crate::memory_check::spacing(n) as int;
    let below = n as int / step;
    vstd::arithmetic::div_mod::lemma_fundamental_div_mod(n as int, step);
    assert(step * below == below * step) by (nonlinear_arith);
    assert((below + 1) * step == below * step + step) by (nonlinear_arith);
    vstd::arithmetic::div_mod::lemma_mod_multiples_basic(below, step);
    vstd::arithmetic::div_mod::lemma_mod_multiples_basic(below + 1, step);
    vstd::arithmetic::div_mod::lemma_div_by_multiple(below, step);
    vstd::arithmetic::div_mod::lemma_div_by_multiple(below + 1, step);
    assert(crate::memory_check::in_double(n) == below * step || crate::memory_check::in_double(n)
        == (below + 1) * step);
}

/// Megabytes are 1048576 bytes each, and only whole ones are counted.
pub proof fn megabytes_are_whole(bytes: nat)
    ensures
        ({
            let double = crate::memory_check::in_double(bytes);
            let count = crate::memory_check::megabytes(bytes);
            count * 1048576 <= double < (count + 1) * 1048576
        }),
        bytes < 0x20_0000_0000_0000 ==> crate::memory_check::megabytes(bytes) * 1048576 <= bytes < (
        crate::memory_check::megabytes(bytes) + 1) * 1048576,
{
    if bytes < 0x20_0000_0000_0000 {
        crate::laws::small_numbers_are_exact(bytes);
    }
}

/// A limit is exceeded by more bytes than the megabytes it allows, both in double precision; no
/// limit is never exceeded.
pub proof fn limits_are_exceeded_by_more_bytes(bytes: nat, max: u64)
    ensures
        !crate::memory_check::exceeds(bytes, None),
        crate::memory_check::exceeds(bytes, Some(max)) <==> crate::memory_check::in_double(bytes)
            > 1048576 * crate::memory_check::in_double(max as nat),
        bytes < 0x20_0000_0000_0000 && max < 0x20_0000_0000_0000 ==> (crate::memory_check::exceeds(
            bytes,
            Some(max),
        ) <==> bytes > 1048576 * max),
{
    if bytes < 0x20_0000_0000_0000 {
        crate::laws::small_numbers_are_exact(bytes);
    }
    if max < 0x20_0000_0000_0000 {
        crate::laws::small_numbers_are_exact(max as nat);
    }
}

/// Whether a finding is of these bytes and says of them whether a limit is exceeded.
pub open spec fn finds(usage: Usage, bytes: nat, max: Option<u64>) -> bool {
    &&& usage.bytes as nat == bytes
    &&& usage.exceeded <==> crate::memory_check::exceeds(bytes, max)
}

/// What one round of checks does to the two figures, and what it finds. The figure for Redis is
/// that of a report that succeeded, where Redis is used and connected; otherwise it stands. The
/// figure for memory is that of the counters in memory, where some are kept there; otherwise it
/// stands. Nothing else changes.
pub proof fn round_of_checks_records_what_it_finds<C>(
    limiter: LimiterView<C>,
    redis_usage: Option<Result<usize, LimiterError>>,
    capacity: nat,
)
    requires
        crate::memory_check::approx_bytes::<String, Entity>(limiter.memory.len(), capacity)
            <= usize::MAX,
    ensures
        ({
            let (after, report) = limiter.checked(redis_usage, capacity);
            let asked = limiter.storage_type !is InMemory && limiter.redis_conn is Some;
            let bytes = crate::memory_check::approx_bytes::<String, Entity>(
                limiter.memory.len(),
                capacity,
            );
            &&& after.storage_type == limiter.storage_type
            &&& after.redis_conn == limiter.redis_conn
            &&& after.memory == limiter.memory
            &&& after.max_memory_size == limiter.max_memory_size
            &&& after.max_redis_size == limiter.max_redis_size
            &&& after.acceptable == limiter.acceptable
            &&& after.memory_check_interval == limiter.memory_check_interval
            &&& match redis_usage {
                Some(Ok(used)) if asked => {
                    &&& after.current_redis_memory_usage_mb as nat
                        == crate::memory_check::megabytes(used as nat)
                    &&& report.redis matches Some(Ok(usage)) && finds(
                        usage,
                        used as nat,
                        limiter.max_redis_size,
                    )
                },
                Some(Err(error)) if asked => {
                    &&& after.current_redis_memory_usage_mb == limiter.current_redis_memory_usage_mb
                    &&& report.redis matches Some(Err(told)) && told == error
                },
                _ => {
                    &&& after.current_redis_memory_usage_mb == limiter.current_redis_memory_usage_mb
                    &&& report.redis is None
                },
            }
            &&& if limiter.storage_type is Redis {
                &&& after.current_memory_usage_mb == limiter.current_memory_usage_mb
                &&& report.memory is None
            } else {
                &&& after.current_memory_usage_mb as nat == crate::memory_check::megabytes(bytes)
                &&& report.memory matches Some(usage) && finds(
                    usage,
                    bytes,
                    limiter.max_memory_size,
                )
            }
        }),
{
    crate::memory_check::megabytes_fit(
        crate::memory_check::approx_bytes::<String, Entity>(limiter.memory.len(), capacity),
    );
    if let Some(Ok(used)) = redis_usage {
        crate::memory_check::megabytes_fit(used as nat);
    }
}

/// Numbers of bytes are counted and compared in double precision.
pub proof fn bytes_are_counted_in_double_precision(
    bytes: usize,
    n: u64,
    max: Option<u64>,
    rounded: u128,
    count: u64,
    yes: bool,
)
    ensures
        call_ensures(crate::memory_check::to_double, (n,), rounded) ==> rounded as nat
            == crate::memory_check::in_double(n as nat),
        call_ensures(crate::memory_check::megabytes_of, (bytes,), count) ==> count * 1048576
            <= crate::memory_check::in_double(bytes as nat) < (count + 1) * 1048576,
        call_ensures(crate::memory_check::exceeds_limit, (bytes, max), yes) ==> (yes <==> (
        max matches Some(max) && crate::memory_check::in_double(bytes as nat) > 1048576
            * crate::memory_check::in_double(max as nat))),
{
    megabytes_are_whole(bytes as nat);
    if let Some(max) = max {
        limits_are_exceeded_by_more_bytes(bytes as nat, max);
    }
}

/// Maps are measured by what they hold and by the room that they report.
pub proof fn maps_are_measured<T>(
    info: crate::storage::InfoMap,
    map: dashmap::DashMap<String, Entity>,
    value: T,
    size: usize,
)
    ensures
        call_ensures(crate::storage::size_of_val::<T>, (&value,), size) ==> size as nat
            == vstd::layout::size_of::<T>(),
        call_ensures(crate::storage::get_hashmap_memory_size, (&info,), size) ==> exists|
            capacity: usize,
        | #[trigger]
            crate::storage::has_room_for(info, capacity) && size as nat
                == crate::storage::table_bytes::<String, String>(
                vstd::layout::size_of::<crate::storage::InfoMap>(),
                capacity as nat,
                crate::storage::info_fields(info).len(),
            ),
        call_ensures(crate::memory_check::get_dashmap_approx_memory_size, (&map,), size) ==> exists|
            capacity: usize,
        | #[trigger]
            crate::memory::has_room_for(map, capacity) && size as nat
                == crate::memory_check::approx_bytes::<String, Entity>(
                crate::memory::counters(map).len(),
                capacity as nat,
            ),
{
}

} // verus!
