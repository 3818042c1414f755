//! The periodic check of how much memory the counters take.

use crate::errors::LimiterError;
use crate::limiter::{Entity, Limiter};
use crate::memory::{memory_len, room_of};
use crate::model::LimiterView;
use crate::storage::{mul_then_sum, StorageType};
use core::time::Duration;
use dashmap::DashMap;
use vstd::prelude::*;

verus! {

/// Numbers below this one are exact in double precision.
pub const EXACT: u64 = 0x20_0000_0000_0000;

/// The distance between the numbers around `n` that double precision represents.
pub open spec fn spacing(n: nat) -> nat
    decreases n,
{
    if n < EXACT {
        1
    } else {
        2 * spacing(n / 2)
    }
}

/// `n` in double precision: the number nearest to `n` that it represents and, of two as near,
/// the one with the even significand.
pub open spec fn in_double(n: nat) -> nat {
    let step = spacing(n);
    let below = n / step;
    let over = n % step;
    if 2 * over > step || (2 * over == step && below % 2 == 1) {
        (below + 1) * step
    } else {
        below * step
    }
}

/// Returns the distance between the numbers around `n` that double precision represents.
fn spacing_of(n: u64) -> (step: u64)
    ensures
        step as nat == spacing(n as nat),
        step >= 1,
        n >= EXACT ==> step * EXACT <= 2 * n,
        n < EXACT ==> step == 1,
    decreases n,
{
    if n < EXACT {
        1
    } else {
        2 * spacing_of(n / 2)
    }
}

/// Returns `n` in double precision.
pub fn to_double(n: u64) -> (rounded: u128)
    ensures
        rounded as nat == in_double(n as nat),
        rounded <= 0x1_0000_0000_0000_0000 + 0x1000,
{
    let step: u64 = spacing_of(n);
    let below: u64 = n / step;
    let over: u64 = n % step;
    proof {
        assert(step <= 0x1000);
        vstd::arithmetic::div_mod::lemma_fundamental_div_mod(n as int, step as int);
        assert(step * below == below * step) by (nonlinear_arith);
        assert((below + 1) * step == below * step + step) by (nonlinear_arith);
    }
    let up = over > step - over || (over == step - over && below % 2 == 1);
    let whole: u128 = if up {
        below as u128 + 1
    } else {
        below as u128
    };
    whole * step as u128
}

/// The whole megabytes, of 1024 times 1024 bytes, in a number of bytes, computed in double
/// precision.
pub open spec fn megabytes(bytes: nat) -> nat {
    in_double(bytes) / 0x10_0000
}

/// Whether a number of bytes is more than a number of megabytes, compared in double precision.
pub open spec fn exceeds(bytes: nat, max_megabytes: Option<u64>) -> bool {
    max_megabytes matches Some(max) && in_double(bytes) > in_double(max as nat) * 0x10_0000
}

/// The distance between represented numbers grows with them.
proof fn spacing_is_small(n: nat)
    ensures
        spacing(n) >= 1,
        n < EXACT ==> spacing(n) == 1,
        n >= EXACT ==> spacing(n) * EXACT <= 2 * n,
    decreases n,
{
    if n >= EXACT {
        spacing_is_small(n / 2);
    }
}

/// The megabytes of a number of bytes that fits in a `usize` are a number that fits as well.
pub proof fn megabytes_fit(bytes: nat)
    requires
        bytes <= usize::MAX,
    ensures
        megabytes(bytes) <= u64::MAX,
{
    spacing_is_small(bytes);
    let step = spacing(bytes);
    let below = bytes / step;
    assert(step <= 0x1000);
    vstd::arithmetic::div_mod::lemma_fundamental_div_mod(bytes as int, step as int);
    assert(step * below == below * step) by (nonlinear_arith);
    assert((below + 1) * step == below * step + step) by (nonlinear_arith);
}

/// Returns the whole megabytes in a number of bytes.
pub fn megabytes_of(bytes: usize) -> (count: u64)
    ensures
        count as nat == megabytes(bytes as nat),
{
    (to_double(bytes as u64) / 0x10_0000) as u64
}

/// Returns whether a number of bytes is more than a number of megabytes.
pub fn exceeds_limit(bytes: usize, max_megabytes: Option<u64>) -> (yes: bool)
    ensures
        yes == exceeds(bytes as nat, max_megabytes),
{
    match max_megabytes {
        Some(max) => to_double(bytes as u64) > to_double(max) * 0x10_0000,
        None => false,
    }
}

/// The bytes that a concurrent map is estimated to take: its keys and values, and a word for
/// each entry that it has room for.
pub open spec fn approx_bytes<K, V>(len: nat, capacity: nat) -> nat {
    len * (vstd::layout::size_of::<K>() + vstd::layout::size_of::<V>()) + capacity
        * vstd::layout::size_of::<usize>()
}

/// Returns the number of bytes that a concurrent map of keys `K` and values `V` is estimated to
/// take; `None` where the number does not fit.
pub fn approx_memory_size<K, V>(len: usize, capacity: usize) -> (size: Option<usize>)
    ensures
        size == crate::storage::as_usize(approx_bytes::<K, V>(len as nat, capacity as nat)),
{
    let key: usize = core::mem::size_of::<K>();
    let value: usize = core::mem::size_of::<V>();
    let word: usize = core::mem::size_of::<usize>();
    proof {
        vstd::arithmetic::mul::lemma_mul_is_distributive_add(len as int, key as int, value as int);
        vstd::arithmetic::mul::lemma_mul_nonnegative(len as int, key as int);
        vstd::arithmetic::mul::lemma_mul_nonnegative(len as int, value as int);
        vstd::arithmetic::mul::lemma_mul_nonnegative(capacity as int, word as int);
    }
    mul_then_sum(len, key, mul_then_sum(len, value, mul_then_sum(capacity, word, Some(0))))
}

/// Where a map has room for what it holds, its estimated bytes are at most those of a key, a value
/// and a word per entry that there is room for.
pub proof fn approx_bytes_are_bounded<K, V>(len: nat, capacity: nat)
    requires
        len <= capacity,
    ensures
        approx_bytes::<K, V>(len, capacity) <= capacity * (vstd::layout::size_of::<K>()
            + vstd::layout::size_of::<V>() + vstd::layout::size_of::<usize>()),
{
    let entry = vstd::layout::size_of::<K>() + vstd::layout::size_of::<V>();
    let word = vstd::layout::size_of::<usize>();
    assert(len * entry + capacity * word <= capacity * (entry + word)) by (nonlinear_arith)
        requires
            len <= capacity,
    ;
}

/// Returns the number of bytes that a map of counters is estimated to take.
pub fn get_dashmap_approx_memory_size(map: &DashMap<String, Entity>) -> (size: usize)
    ensures
        exists|capacity: usize| #[trigger]
            crate::memory::has_room_for(*map, capacity) && size as nat == approx_bytes::<
                String,
                Entity,
            >(crate::memory::counters(*map).len(), capacity as nat),
{
    let capacity: usize = room_of(map);
    let len: usize = memory_len(map);
    proof {
        crate::memory::room_is_bounded(*map, capacity);
        approx_bytes_are_bounded::<String, Entity>(len as nat, capacity as nat);
    }
    approx_memory_size::<String, Entity>(len, capacity).unwrap()
}

/// What a check has found.
#[derive(Debug, Clone, Copy, PartialEq, Eq, Structural)]
pub struct Usage {
    pub bytes: usize,
    /// Whether this is more than is allowed.
    pub exceeded: bool,
}

/// What the checks of one round have found.
#[derive(Debug)]
pub struct MemoryReport {
    /// Of Redis, where it was asked.
    pub redis: Option<Result<Usage, LimiterError>>,
    /// Of the counters in memory, where some are kept there.
    pub memory: Option<Usage>,
}

impl<C> LimiterView<C> {
    /// Whether a check asks Redis how much memory it uses.
    pub open spec fn asks_redis(self) -> bool {
        self.storage_type !is InMemory && self.redis_conn is Some
    }

    /// Recording how much memory Redis reports to use: the limiter after it, and what was found.
    /// Where the report failed, the last one stands.
    pub open spec fn redis_recorded(self, usage: Result<usize, LimiterError>) -> (
        Self,
        Result<Usage, LimiterError>,
    ) {
        match usage {
            Ok(bytes) => (
                LimiterView {
                    current_redis_memory_usage_mb: megabytes(bytes as nat) as u64,
                    ..self
                },
                Ok(Usage { bytes, exceeded: exceeds(bytes as nat, self.max_redis_size) }),
            ),
            Err(error) => (self, Err(error)),
        }
    }

    /// Recording how much memory the counters take that are kept in memory: the limiter after
    /// it, and what was found.
    pub open spec fn memory_recorded(self, bytes: usize) -> (Self, Usage) {
        (
            LimiterView { current_memory_usage_mb: megabytes(bytes as nat) as u64, ..self },
            Usage { bytes, exceeded: exceeds(bytes as nat, self.max_memory_size) },
        )
    }

    /// A check of the counters in memory, with room for `capacity` of them: the limiter after
    /// it, and what was found.
    pub open spec fn memory_checked(self, capacity: nat) -> (Self, Option<Usage>) {
        if self.storage_type is Redis {
            (self, None)
        } else {
            let bytes = approx_bytes::<String, Entity>(self.memory.len(), capacity);
            let (after, usage) = self.memory_recorded(bytes as usize);
            (after, Some(usage))
        }
    }

    /// One round of checks, with room for `capacity` counters in memory: the limiter after it,
    /// and what was found. `redis_usage` is what Redis reported, if it was asked.
    pub open spec fn checked(
        self,
        redis_usage: Option<Result<usize, LimiterError>>,
        capacity: nat,
    ) -> (Self, MemoryReport) {
        let (recorded, redis) = match redis_usage {
            Some(usage) if self.asks_redis() => {
                let (recorded, found) = self.redis_recorded(usage);
                (recorded, Some(found))
            },
            _ => (self, None),
        };
        let (after, memory) = recorded.memory_checked(capacity);
        (after, MemoryReport { redis, memory })
    }
}

impl<C> Limiter<C> {
    /// Starts the periodic check, every `interval`, unless it has been started. Returns whether
    /// it was started now.
    pub fn start_memory_check_task(&mut self, interval: Duration) -> (started: bool)
        ensures
            started == (old(self)@.memory_check_interval is None),
            final(self)@ == (LimiterView {
                memory_check_interval: match old(self)@.memory_check_interval {
                    Some(earlier) => Some(earlier),
                    None => Some(interval),
                },
                ..old(self)@
            }),
    {
        if self.memory_check_interval.is_some() {
            return false;
        }
        self.memory_check_interval = Some(interval);
        true
    }

    /// Runs one round of the periodic check. `redis_usage` is what Redis reported, where it was
    /// asked. A report that failed, or that nobody was to ask for, leaves the figure for Redis as
    /// it is. The figure for the counters in memory is renewed either way.
    pub fn memory_check_task(&mut self, redis_usage: Option<Result<usize, LimiterError>>) -> (report:
        MemoryReport)
        ensures
            exists|capacity: usize|
                {
                    &&& old(self)@.storage_type !is Redis ==> crate::memory::has_room_for(
                        old(self).in_memory,
                        capacity,
                    )
                    &&& (final(self)@, report) == #[trigger] old(self)@.checked(
                        redis_usage,
                        capacity as nat,
                    )
                },
    {
        let asks_redis = self.checks_redis_memory();
        let redis = match redis_usage {
            Some(usage) if asks_redis => Some(self.record_redis_memory(usage)),
            _ => None,
        };
        let ghost recorded = *self;
        let memory = self.check_memory();
        let report = MemoryReport { redis, memory };
        proof {
            let capacity = choose|capacity: usize|
                {
                    &&& recorded@.storage_type !is Redis ==> crate::memory::has_room_for(
                        recorded.in_memory,
                        capacity,
                    )
                    &&& (self@, memory) == #[trigger] recorded@.memory_checked(capacity as nat)
                };
            assert((self@, report) == old(self)@.checked(redis_usage, capacity as nat));
        }
        report
    }

    /// Returns whether a check asks Redis how much memory it uses.
    pub fn checks_redis_memory(&self) -> (yes: bool)
        ensures
            yes == self@.asks_redis(),
    {
        self.storage_type != StorageType::InMemory && self.redis_conn.is_some()
    }

    /// Records how much memory Redis reports to use; where the report failed, the last one
    /// stands.
    pub fn record_redis_memory(&mut self, usage: Result<usize, LimiterError>) -> (checked: Result<
        Usage,
        LimiterError,
    >)
        ensures
            (final(self)@, checked) == old(self)@.redis_recorded(usage),
            final(self).in_memory == old(self).in_memory,
            usage matches Ok(bytes) ==> final(self)@.current_redis_memory_usage_mb as nat
                == megabytes(bytes as nat),
    {
        let bytes: usize = match usage {
            Ok(bytes) => bytes,
            Err(error) => return Err(error),
        };
        self.current_redis_memory_usage_mb = megabytes_of(bytes);
        Ok(Usage { bytes, exceeded: exceeds_limit(bytes, self.max_redis_size) })
    }

    /// Checks and records how much memory the counters take that are kept in memory; `None`
    /// where none are kept there.
    pub fn check_memory(&mut self) -> (check: Option<Usage>)
        ensures
            exists|capacity: usize|
                {
                    &&& old(self)@.storage_type !is Redis ==> crate::memory::has_room_for(
                        old(self).in_memory,
                        capacity,
                    )
                    &&& (final(self)@, check) == #[trigger] old(self)@.memory_checked(
                        capacity as nat,
                    )
                },
    {
        if self.storage_type == StorageType::Redis {
            assert((self@, None::<Usage>) == self@.memory_checked(0usize as nat));
            return None;
        }
        let bytes: usize = get_dashmap_approx_memory_size(&self.in_memory);
        let check = Some(self.record_memory(bytes));
        proof {
            let capacity = choose|capacity: usize| #[trigger]
                crate::memory::has_room_for(old(self).in_memory, capacity) && bytes as nat
                    == approx_bytes::<String, Entity>(old(self)@.memory.len(), capacity as nat);
            assert((self@, check) == old(self)@.memory_checked(capacity as nat));
        }
        check
    }

    /// Records how much memory the counters take that are kept in memory.
    pub fn record_memory(&mut self, bytes: usize) -> (usage: Usage)
        ensures
            (final(self)@, usage) == old(self)@.memory_recorded(bytes),
            final(self)@.current_memory_usage_mb as nat == megabytes(bytes as nat),
    {
        self.current_memory_usage_mb = megabytes_of(bytes);
        Usage { bytes, exceeded: exceeds_limit(bytes, self.max_memory_size) }
    }
}

} // verus!
