//! What the operations of a limiter do, said of what they are given and of what they return.

use crate::entity::{
    BucketConfig, Entity, EntityView, EntityWrite, LimitEntityType, LimitStep, LimiterHeaders,
    Lookup, RedisFetch,
};
use crate::errors::LimiterError;
use crate::limiter::Limiter;
use crate::memory_check::{MemoryReport, Usage};
use core::time::Duration;
use vstd::prelude::*;

verus! {

/// Whether two limiters differ at most in their counters.
pub open spec fn settings_stay<C>(before: Limiter<C>, after: Limiter<C>) -> bool {
    &&& after.storage_type == before.storage_type
    &&& after.redis_conn == before.redis_conn
    &&& after.max_memory_size == before.max_memory_size
    &&& after.max_redis_size == before.max_redis_size
    &&& after.acceptable_last_accesed_time_to_cache_redis_in_memory
        == before.acceptable_last_accesed_time_to_cache_redis_in_memory
    &&& after.current_redis_memory_usage_mb == before.current_redis_memory_usage_mb
    &&& after.current_memory_usage_mb == before.current_memory_usage_mb
    &&& after.memory_check_interval == before.memory_check_interval
}

/// Whether the counters in memory stay as they are.
pub open spec fn counters_stay<C>(before: Limiter<C>, after: Limiter<C>) -> bool {
    crate::memory::counters(after.in_memory) == crate::memory::counters(before.in_memory)
}

/// The counter that a limiter has in memory under a key.
pub open spec fn in_memory<C>(limiter: Limiter<C>, key: Seq<char>) -> Option<EntityView> {
    crate::memory::counters(limiter.in_memory).get(key)
}

/// Whether a counter in memory is this one.
pub open spec fn is_counter(kept: Option<EntityView>, counter: Entity) -> bool {
    kept matches Some(kept) && {
        &&& kept.entity_type == counter.entity_type@
        &&& kept.initial_supply == counter.initial_supply
        &&& kept.remaining == counter.remaining
        &&& kept.created_at == counter.created_at
        &&& kept.expires_at == counter.expires_at
        &&& kept.last_accessed_at == counter.last_accessed_at
    }
}

/// What an admitted request is told; nothing where it is not admitted.
pub open spec fn told(step: LimitStep) -> Option<LimiterHeaders> {
    match step {
        LimitStep::Done(Ok(headers)) => Some(headers),
        LimitStep::Store(_, headers) => Some(headers),
        _ => None,
    }
}

/// The time that lies a duration behind `start`, where the duration fits in a timestamp.
pub open spec fn ends(end: u64, start: u64, duration: Duration) -> bool {
    crate::time::duration_millis(duration) <= u64::MAX ==> end == start
        + crate::time::duration_millis(duration)
}

/// A request that opens a cycle, as it finds no counter or one whose cycle has ended, is told of
/// the bucket's maximum, less itself, and of the time that lies the bucket's duration behind the
/// opening. Its counter is made so, wherever it is kept.
pub proof fn opening_request_is_told_of_the_duration<C>(
    before: Limiter<C>,
    after: Limiter<C>,
    key: String,
    found: Option<Entity>,
    config: BucketConfig,
    now: u64,
    update_now: u64,
    step: LimitStep,
)
    requires
        exists|limiter: &mut Limiter<C>| #[trigger]
            call_ensures(
                Limiter::<C>::limit_found_at,
                (limiter, key, found, &config, now, update_now),
                step,
            ) && *limiter == before && *final(limiter) == after,
        found matches Some(entity) ==> now > entity.expires_at,
    ensures
        ({
            let opened_at = if found is None {
                now
            } else {
                update_now
            };
            let kind = match found {
                Some(entity) => entity.entity_type@,
                None => config.limit_by@,
            };
            &&& settings_stay(before, after)
            &&& told(step) matches Some(headers) ==> {
                &&& headers.key@ == key@
                &&& headers.bucket@ == config.name@
                &&& headers.limit == config.max_requests_per_cycle
                &&& headers.remaining == config.max_requests_per_cycle - 1
                &&& ends(headers.reset, opened_at, config.cycle_duration)
                &&& step matches LimitStep::Store(store, _) ==> {
                    &&& store.key@ == key@
                    &&& store.duration == config.cycle_duration
                    &&& store.entity.entity_type@ == kind
                    &&& store.entity.initial_supply == config.max_requests_per_cycle
                    &&& store.entity.remaining == config.max_requests_per_cycle - 1
                    &&& store.entity.created_at == opened_at
                    &&& store.entity.last_accessed_at == opened_at
                    &&& store.entity.expires_at == headers.reset
                }
                &&& step is Done ==> (in_memory(after, key@) matches Some(kept) && {
                    &&& kept.entity_type == kind
                    &&& kept.initial_supply == config.max_requests_per_cycle
                    &&& kept.remaining == config.max_requests_per_cycle - 1
                    &&& kept.created_at == opened_at
                    &&& kept.last_accessed_at == opened_at
                    &&& kept.expires_at == headers.reset
                })
                &&& found is Some && before.storage_type is InMemory ==> step is Done
                &&& before.storage_type is Redis ==> step is Store && counters_stay(before, after)
                &&& found is Some && before.storage_type is RedisAndMemoryMix ==> (
                step matches LimitStep::Store(store, _) && is_counter(
                    in_memory(after, key@),
                    store.entity,
                ))
            }
            &&& told(step) is None ==> counters_stay(before, after)
            &&& found is Some ==> (told(step) is Some <==> config.max_requests_per_cycle > 0)
            &&& found is Some && config.max_requests_per_cycle == 0 ==> (
            step matches LimitStep::Done(Err(error)) && error is Limited)
        }),
{
    let view = crate::entity::entity_view(found);
    crate::laws::cycles::durations_are_counted_in_milliseconds(config.cycle_duration);
    match view {
        None => crate::laws::cycles::first_request_is_measured_by_the_figures(
            before@,
            key@,
            config@,
            now as nat,
            update_now as nat,
        ),
        Some(entity) => crate::laws::cycles::ended_cycle_is_followed_by_another(
            before@,
            key@,
            entity,
            config@,
            now as nat,
            update_now as nat,
        ),
    }
}

/// A first request is refused for want of room exactly if the figure for each storage that would
/// keep its counter is over the limit that is set for that storage. Otherwise it is refused exactly
/// if the bucket's maximum is nothing. A refusal changes nothing.
pub proof fn first_request_needs_room_by_the_figures<C>(
    before: Limiter<C>,
    after: Limiter<C>,
    key: String,
    config: BucketConfig,
    now: u64,
    update_now: u64,
    step: LimitStep,
)
    requires
        exists|limiter: &mut Limiter<C>| #[trigger]
            call_ensures(
                Limiter::<C>::limit_found_at,
                (limiter, key, None::<Entity>, &config, now, update_now),
                step,
            ) && *limiter == before && *final(limiter) == after,
    ensures
        ({
            let memory_over = before.max_memory_size matches Some(max)
                && before.current_memory_usage_mb > max;
            let redis_over = before.max_redis_size matches Some(max)
                && before.current_redis_memory_usage_mb > max;
            let over = match before.storage_type {
                crate::storage::StorageType::InMemory => memory_over,
                crate::storage::StorageType::Redis => redis_over,
                crate::storage::StorageType::RedisAndMemoryMix => memory_over && redis_over,
            };
            let error = match before.storage_type {
                crate::storage::StorageType::InMemory => LimiterError::MemoryLimitExceeded,
                crate::storage::StorageType::Redis => LimiterError::RedisMemoryExceeded,
                crate::storage::StorageType::RedisAndMemoryMix => {
                    LimiterError::BothMemoryAndRedisMemoryExceeded
                },
            };
            &&& step == LimitStep::Done(Err(error)) <==> over
            &&& step == LimitStep::Done(Err(LimiterError::Limited)) <==> !over
                && config.max_requests_per_cycle == 0
            &&& told(step) is Some <==> !over && config.max_requests_per_cycle > 0
            &&& told(step) is None ==> counters_stay(before, after) && settings_stay(before, after)
            &&& told(step) is Some ==> {
                &&& in_memory(after, key@) != in_memory(before, key@)
                    ==> before.storage_type !is Redis && !memory_over
                &&& before.storage_type !is Redis && !memory_over ==> in_memory(
                    after,
                    key@,
                ) is Some
                &&& step is Store <==> before.storage_type !is InMemory && !redis_over
            }
            &&& forall|other: Seq<char>|
                other != key@ ==> #[trigger] in_memory(after, other) == in_memory(before, other)
        }),
{
    crate::laws::cycles::first_request_is_measured_by_the_figures(
        before@,
        key@,
        config@,
        now as nat,
        update_now as nat,
    );
    crate::laws::views::steps_are_seen(step);
    assert(before@.limit(key@, None, config@, now as nat, update_now as nat) == (after@, step@));
    assert forall|other: Seq<char>| other != key@ implies #[trigger] in_memory(after, other)
        == in_memory(before, other) by {
        crate::laws::other_keys_are_untouched(
            before@,
            key@,
            other,
            None,
            config@,
            now as nat,
            update_now as nat,
        );
    }
}

/// A request up to the end of its counter's cycle takes one of what the counter has left, and is
/// told of the same end; where nothing is left it is refused for its rate and nothing changes.
pub proof fn request_takes_one_of_what_is_left<C>(
    before: Limiter<C>,
    after: Limiter<C>,
    key: String,
    entity: Entity,
    config: BucketConfig,
    now: u64,
    update_now: u64,
    step: LimitStep,
)
    requires
        exists|limiter: &mut Limiter<C>| #[trigger]
            call_ensures(
                Limiter::<C>::limit_found_at,
                (limiter, key, Some(entity), &config, now, update_now),
                step,
            ) && *limiter == before && *final(limiter) == after,
        now <= entity.expires_at,
    ensures
        settings_stay(before, after),
        entity.remaining == 0 ==> step == LimitStep::Done(Err(LimiterError::Limited))
            && counters_stay(before, after),
        entity.remaining > 0 ==> (told(step) matches Some(headers) && {
            &&& headers.key@ == key@
            &&& headers.bucket@ == config.name@
            &&& headers.limit == entity.initial_supply
            &&& headers.remaining == entity.remaining - 1
            &&& headers.reset == entity.expires_at
            &&& step is Done <==> before.storage_type is InMemory
            &&& step matches LimitStep::Store(store, _) ==> {
                &&& store.key@ == key@
                &&& store.duration == config.cycle_duration
                &&& store.entity.entity_type@ == entity.entity_type@
                &&& store.entity.initial_supply == entity.initial_supply
                &&& store.entity.remaining == entity.remaining - 1
                &&& store.entity.created_at == entity.created_at
                &&& store.entity.expires_at == entity.expires_at
                &&& store.entity.last_accessed_at == update_now
            }
            &&& step is Done ==> (in_memory(after, key@) matches Some(kept) && {
                &&& kept.entity_type == entity.entity_type@
                &&& kept.initial_supply == entity.initial_supply
                &&& kept.remaining == entity.remaining - 1
                &&& kept.created_at == entity.created_at
                &&& kept.expires_at == entity.expires_at
                &&& kept.last_accessed_at == update_now
            })
            &&& before.storage_type is Redis ==> counters_stay(before, after)
            &&& before.storage_type is RedisAndMemoryMix && crate::time::duration_millis(
                before.acceptable_last_accesed_time_to_cache_redis_in_memory,
            ) <= u64::MAX ==> (if update_now - entity.last_accessed_at
                > crate::time::duration_millis(
                before.acceptable_last_accesed_time_to_cache_redis_in_memory,
            ) {
                in_memory(after, key@) is None
            } else {
                step matches LimitStep::Store(store, _) && is_counter(
                    in_memory(after, key@),
                    store.entity,
                )
            })
        }),
{
    crate::laws::cycles::durations_are_counted_in_milliseconds(
        before.acceptable_last_accesed_time_to_cache_redis_in_memory,
    );
    crate::laws::cycles::request_in_a_cycle_takes_one(
        before@,
        key@,
        entity@,
        config@,
        now as nat,
        update_now as nat,
    );
    crate::laws::views::steps_are_seen(step);
}

/// A lookup comes to the counter in memory, or asks Redis for the whole key and hands on the
/// acceptable time and a time that the clock showed.
pub proof fn lookup_finds_or_asks_for_the_key<C>(
    limiter: Limiter<C>,
    key: String,
    acceptable: Duration,
    lookup: Lookup,
)
    requires
        call_ensures(Limiter::<C>::get_entity, (&limiter, key, acceptable), lookup),
    ensures
        match lookup {
            Lookup::Fetch(fetch) => {
                &&& fetch.key@ == key@
                &&& fetch.acceptable == acceptable
                &&& crate::time::shown(fetch.now)
                &&& limiter.storage_type is Redis || (limiter.storage_type is RedisAndMemoryMix
                    && in_memory(limiter, key@) is None)
            },
            Lookup::Ready(None) => limiter.storage_type is InMemory && in_memory(
                limiter,
                key@,
            ) is None,
            Lookup::Ready(Some(entity)) => limiter.storage_type !is Redis && is_counter(
                in_memory(limiter, key@),
                entity,
            ),
        },
{
    crate::laws::lookups::lookup_bears_the_time(limiter@, key@, acceptable, lookup@);
}

/// A reply of Redis is handed on. In mixed storage its counter is put into memory exactly if its
/// cycle has not ended and it was accessed less than the acceptable time ago; one that was
/// accessed later than it was asked for is not taken. Nothing else changes.
pub proof fn reply_is_handed_on<C>(
    before: Limiter<C>,
    after: Limiter<C>,
    fetch: RedisFetch,
    reply: Result<Option<Entity>, LimiterError>,
    found: Option<Result<Option<Entity>, LimiterError>>,
)
    requires
        exists|limiter: &mut Limiter<C>| #[trigger]
            call_ensures(Limiter::<C>::get_entity_fetched, (limiter, fetch, reply), found)
                && *limiter == before && *final(limiter) == after,
    ensures
        settings_stay(before, after),
        ({
            let mixed = before.storage_type is RedisAndMemoryMix;
            let early = mixed && (reply matches Ok(Some(entity)) && entity.last_accessed_at
                > fetch.now);
            &&& found is None <==> early
            &&& found matches Some(found) ==> found == reply
            &&& reply is Err || (reply matches Ok(None)) || !mixed || early ==> counters_stay(
                before,
                after,
            )
            &&& reply matches Ok(Some(entity)) ==> (mixed && !early
                && crate::time::duration_millis(fetch.acceptable) <= u64::MAX ==> if fetch.now
                < entity.expires_at && fetch.now - entity.last_accessed_at
                < crate::time::duration_millis(fetch.acceptable) {
                is_counter(in_memory(after, fetch.key@), entity)
            } else {
                counters_stay(before, after)
            })
            &&& forall|other: Seq<char>|
                other != fetch.key@ ==> #[trigger] in_memory(after, other) == in_memory(
                    before,
                    other,
                )
        }),
{
    crate::laws::cycles::durations_are_counted_in_milliseconds(fetch.acceptable);
    if let Ok(counter) = reply {
        let view = crate::entity::entity_view(counter);
        crate::laws::lookups::fetched_counter_is_put_by_where_recent(before@, fetch@, view);
        crate::laws::lookups::replies_are_used_unless_time_fails(before@, fetch@, view);
    }
}

/// Whether a counter is written: in memory unless the storage is Redis, and handed to Redis,
/// under the same key and for the bucket's duration, unless the storage is memory.
pub open spec fn is_written<C>(
    before: Limiter<C>,
    after: Limiter<C>,
    key: Seq<char>,
    config: BucketConfig,
    write: EntityWrite,
) -> bool {
    &&& settings_stay(before, after)
    &&& before.storage_type is Redis ==> counters_stay(before, after)
    &&& before.storage_type !is Redis ==> is_counter(in_memory(after, key), write.entity)
    &&& write.store is Some <==> before.storage_type !is InMemory
    &&& write.store matches Some(store) ==> {
        &&& store.key@ == key
        &&& store.duration == config.cycle_duration
        &&& store.entity@ == write.entity@
    }
    &&& forall|other: Seq<char>|
        other != key ==> #[trigger] in_memory(after, other) == in_memory(before, other)
}

/// A reset writes a counter with the whole supply of the bucket, for a cycle of the bucket's
/// duration from now on, and returns it.
pub proof fn reset_writes_a_whole_supply<C>(
    before: Limiter<C>,
    after: Limiter<C>,
    key: String,
    entity_type: LimitEntityType,
    config: BucketConfig,
    now: u64,
    write: EntityWrite,
)
    requires
        exists|limiter: &mut Limiter<C>| #[trigger]
            call_ensures(
                Limiter::<C>::reset_entity_at,
                (limiter, key, entity_type, &config, now),
                write,
            ) && *limiter == before && *final(limiter) == after,
    ensures
        is_written(before, after, key@, config, write),
        write.entity.entity_type@ == entity_type@,
        write.entity.initial_supply == config.max_requests_per_cycle,
        write.entity.remaining == config.max_requests_per_cycle,
        write.entity.created_at == now,
        write.entity.last_accessed_at == now,
        ends(write.entity.expires_at, now, config.cycle_duration),
{
    crate::laws::cycles::reset_is_kept(before@, key@, entity_type@, config@, now as nat, None);
    assert(after@.memory == crate::memory::counters(after.in_memory));
    assert(write@.entity == write.entity@);
}

/// A reset by the clock does the same at a time that the clock showed, unless the end of the cycle
/// is no timestamp; then nothing changes.
pub proof fn reset_by_the_clock<C>(
    before: Limiter<C>,
    after: Limiter<C>,
    key: String,
    entity_type: LimitEntityType,
    config: BucketConfig,
    write: Option<EntityWrite>,
)
    requires
        exists|limiter: &mut Limiter<C>| #[trigger]
            call_ensures(
                Limiter::<C>::reset_entity,
                (limiter, key, entity_type, &config),
                write,
            ) && *limiter == before && *final(limiter) == after,
    ensures
        exists|now: u64| #[trigger]
            crate::time::shown(now) && match write {
                Some(write) => {
                    &&& is_written(before, after, key@, config, write)
                    &&& write.entity.entity_type@ == entity_type@
                    &&& write.entity.initial_supply == config.max_requests_per_cycle
                    &&& write.entity.remaining == config.max_requests_per_cycle
                    &&& write.entity.created_at == now
                    &&& write.entity.last_accessed_at == now
                    &&& ends(write.entity.expires_at, now, config.cycle_duration)
                },
                None => {
                    &&& settings_stay(before, after)
                    &&& counters_stay(before, after)
                    &&& now + crate::time::timestamp_millis(config.cycle_duration) > u64::MAX
                },
            },
{
    let now = choose|now: u64|
        crate::time::shown(now) && now <= crate::time::MAX_TIMESTAMP
            && if #[trigger] config@.cycle_fits(now as nat) {
            (after@, crate::entity::write_view(write)) == ({
                let (after, write) = before@.reset(key@, entity_type@, config@, now as nat);
                (after, Some(write))
            })
        } else {
            after@ == before@ && write is None
        };
    crate::laws::cycles::reset_is_kept(before@, key@, entity_type@, config@, now as nat, None);
    assert(after@.memory == crate::memory::counters(after.in_memory));
    assert(before@.memory == crate::memory::counters(before.in_memory));
    if let Some(write) = write {
        assert(write@.entity == write.entity@);
    }
}

/// A charge takes one of what is left and writes the counter so, accessed now; in mixed storage a
/// counter that was last accessed longer ago than the acceptable time leaves memory. A counter
/// with nothing left is returned as it is.
pub proof fn charge_takes_one<C>(
    before: Limiter<C>,
    after: Limiter<C>,
    key: String,
    entity: Entity,
    config: BucketConfig,
    now: u64,
    write: EntityWrite,
)
    requires
        exists|limiter: &mut Limiter<C>| #[trigger]
            call_ensures(
                Limiter::<C>::decrease_remaining_and_update_at,
                (limiter, key, entity, &config, now),
                write,
            ) && *limiter == before && *final(limiter) == after,
        crate::time::duration_millis(
            before.acceptable_last_accesed_time_to_cache_redis_in_memory,
        ) <= u64::MAX,
    ensures
        ({
            let idle = before.storage_type is RedisAndMemoryMix && now - entity.last_accessed_at
                > crate::time::duration_millis(
                before.acceptable_last_accesed_time_to_cache_redis_in_memory,
            );
            &&& settings_stay(before, after)
            &&& write.entity.entity_type@ == entity.entity_type@
            &&& write.entity.initial_supply == entity.initial_supply
            &&& write.entity.created_at == entity.created_at
            &&& write.entity.expires_at == entity.expires_at
            &&& entity.remaining == 0 ==> {
                &&& counters_stay(before, after)
                &&& write.entity.remaining == 0
                &&& write.entity.last_accessed_at == entity.last_accessed_at
                &&& write.store is None
            }
            &&& entity.remaining > 0 ==> {
                &&& write.entity.remaining == entity.remaining - 1
                &&& write.entity.last_accessed_at == now
                &&& !idle ==> is_written(before, after, key@, config, write)
                &&& idle ==> {
                    &&& in_memory(after, key@) is None
                    &&& write.store matches Some(store) && store.key@ == key@ && store.duration
                        == config.cycle_duration && store.entity@ == write.entity@
                }
            }
        }),
{
    crate::laws::cycles::durations_are_counted_in_milliseconds(
        before.acceptable_last_accesed_time_to_cache_redis_in_memory,
    );
    crate::laws::cycles::charge_is_kept(before@, key@, entity@, config@, now as nat, None);
    assert(after@.memory == crate::memory::counters(after.in_memory));
    assert(write@.entity == write.entity@);
}

/// The check of memory is started once: a later start leaves the interval of the first.
pub proof fn checks_are_started_once<C>(
    before: Limiter<C>,
    after: Limiter<C>,
    interval: Duration,
    started: bool,
)
    requires
        exists|limiter: &mut Limiter<C>| #[trigger]
            call_ensures(Limiter::<C>::start_memory_check_task, (limiter, interval), started)
                && *limiter == before && *final(limiter) == after,
    ensures
        started <==> before.memory_check_interval is None,
        started ==> after.memory_check_interval == Some(interval),
        !started ==> after.memory_check_interval == before.memory_check_interval,
        counters_stay(before, after),
        after.storage_type == before.storage_type,
        after.redis_conn == before.redis_conn,
        after.max_memory_size == before.max_memory_size,
        after.max_redis_size == before.max_redis_size,
        after.acceptable_last_accesed_time_to_cache_redis_in_memory
            == before.acceptable_last_accesed_time_to_cache_redis_in_memory,
        after.current_redis_memory_usage_mb == before.current_redis_memory_usage_mb,
        after.current_memory_usage_mb == before.current_memory_usage_mb,
{
    assert(after@.memory == crate::memory::counters(after.in_memory));
}

/// A round of checks renews the figure for the counters in memory by what their map takes, whatever
/// Redis reported, and the figure for Redis by what Redis reported, where it was to be asked and
/// did not fail.
pub proof fn round_of_checks_renews_the_figures<C>(
    before: Limiter<C>,
    after: Limiter<C>,
    redis_usage: Option<Result<usize, LimiterError>>,
    report: MemoryReport,
)
    requires
        exists|limiter: &mut Limiter<C>| #[trigger]
            call_ensures(Limiter::<C>::memory_check_task, (limiter, redis_usage), report)
                && *limiter == before && *final(limiter) == after,
    ensures
        counters_stay(before, after),
        after.max_memory_size == before.max_memory_size,
        after.max_redis_size == before.max_redis_size,
        before.storage_type is Redis ==> after.current_memory_usage_mb
            == before.current_memory_usage_mb && report.memory is None,
        before.storage_type !is Redis ==> (report.memory matches Some(usage) && {
            &&& after.current_memory_usage_mb as nat == crate::memory_check::megabytes(
                usage.bytes as nat,
            )
            &&& usage.exceeded <==> crate::memory_check::exceeds(
                usage.bytes as nat,
                before.max_memory_size,
            )
            &&& exists|capacity: usize| #[trigger]
                crate::memory::has_room_for(before.in_memory, capacity) && usage.bytes as nat
                    == crate::memory_check::approx_bytes::<String, Entity>(
                    crate::memory::counters(before.in_memory).len(),
                    capacity as nat,
                )
        }),
        match redis_usage {
            Some(Ok(used)) if before.storage_type !is InMemory && before.redis_conn is Some => {
                &&& after.current_redis_memory_usage_mb as nat == crate::memory_check::megabytes(
                    used as nat,
                )
                &&& report.redis matches Some(Ok(usage)) && usage.bytes == used && (usage.exceeded
                    <==> crate::memory_check::exceeds(used as nat, before.max_redis_size))
            },
            Some(Err(error)) if before.storage_type !is InMemory && before.redis_conn is Some => {
                &&& after.current_redis_memory_usage_mb == before.current_redis_memory_usage_mb
                &&& report.redis matches Some(Err(told)) && told == error
            },
            _ => {
                &&& after.current_redis_memory_usage_mb == before.current_redis_memory_usage_mb
                &&& report.redis is None
            },
        },
{
    let capacity = choose|capacity: usize|
        {
            &&& before@.storage_type !is Redis ==> crate::memory::has_room_for(
                before.in_memory,
                capacity,
            )
            &&& (after@, report) == #[trigger] before@.checked(redis_usage, capacity as nat)
        };
    assert(after@.memory == crate::memory::counters(after.in_memory));
    assert(before@.memory == crate::memory::counters(before.in_memory));
    if before.storage_type !is Redis {
        crate::memory::room_is_bounded(before.in_memory, capacity);
        crate::memory_check::approx_bytes_are_bounded::<String, Entity>(
            before@.memory.len(),
            capacity as nat,
        );
        crate::laws::figures::round_of_checks_records_what_it_finds(
            before@,
            redis_usage,
            capacity as nat,
        );
    } else if let Some(Ok(used)) = redis_usage {
        crate::memory_check::megabytes_fit(used as nat);
    }
}

/// What is recorded of a number of bytes is the whole megabytes of it, and whether it is more than
/// is allowed.
pub proof fn recording_counts_megabytes<C>(
    before: Limiter<C>,
    after: Limiter<C>,
    bytes: usize,
    usage: Usage,
    checked: Result<Usage, LimiterError>,
)
    ensures
        (exists|limiter: &mut Limiter<C>| #[trigger]
            call_ensures(Limiter::<C>::record_memory, (limiter, bytes), usage) && *limiter == before
                && *final(limiter) == after) ==> {
            &&& usage.bytes == bytes
            &&& usage.exceeded <==> crate::memory_check::exceeds(
                bytes as nat,
                before.max_memory_size,
            )
            &&& after.current_memory_usage_mb as nat == crate::memory_check::megabytes(bytes as nat)
            &&& after.current_redis_memory_usage_mb == before.current_redis_memory_usage_mb
            &&& counters_stay(before, after)
        },
        (exists|limiter: &mut Limiter<C>| #[trigger]
            call_ensures(
                Limiter::<C>::record_redis_memory,
                (limiter, Ok::<usize, LimiterError>(bytes)),
                checked,
            ) && *limiter == before && *final(limiter) == after) ==> {
            &&& checked matches Ok(usage) && usage.bytes == bytes && (usage.exceeded
                <==> crate::memory_check::exceeds(bytes as nat, before.max_redis_size))
            &&& after.current_redis_memory_usage_mb as nat == crate::memory_check::megabytes(
                bytes as nat,
            )
            &&& after.current_memory_usage_mb == before.current_memory_usage_mb
            &&& counters_stay(before, after)
        },
{
    assert(after@.memory == crate::memory::counters(after.in_memory));
    assert(before@.memory == crate::memory::counters(before.in_memory));
}

/// A request starts at its counter. Where that is not at hand it asks Redis for the key of the
/// entity in the bucket, and changes nothing. Where it is, the request is decided at two times that
/// the clock showed, or, where the time fails, not at all.
pub proof fn request_is_looked_up_and_decided<C>(
    before: Limiter<C>,
    after: Limiter<C>,
    entity_key: String,
    config: BucketConfig,
    step: Option<LimitStep>,
)
    requires
        exists|limiter: &mut Limiter<C>| #[trigger]
            call_ensures(Limiter::<C>::limit_this, (limiter, entity_key, &config), step)
                && *limiter == before && *final(limiter) == after,
    ensures
        ({
            let key = config@.key(entity_key@);
            let asks = before.storage_type is Redis || (before.storage_type is RedisAndMemoryMix
                && in_memory(before, key) is None);
            if asks {
                &&& step matches Some(LimitStep::Fetch(fetch)) && fetch.key@ == key
                    && fetch.acceptable
                    == before.acceptable_last_accesed_time_to_cache_redis_in_memory
                    && crate::time::shown(fetch.now)
                &&& counters_stay(before, after)
                &&& settings_stay(before, after)
            } else {
                exists|now: u64, update_now: u64|
                    {
                        &&& #[trigger] crate::time::shown(now)
                        &&& #[trigger] crate::time::shown(update_now)
                        &&& match step {
                            Some(step) => (after@, step@) == before@.limit(
                                key,
                                in_memory(before, key),
                                config@,
                                now as nat,
                                update_now as nat,
                            ),
                            None => after@ == before@ && !before@.limit_in_range(
                                in_memory(before, key),
                                config@,
                                now as nat,
                                update_now as nat,
                            ),
                        }
                    }
            }
        }),
{
    let key = config@.key(entity_key@);
    let view = crate::entity::step_view(step);
    crate::laws::lookups::request_starts_at_its_counter(before@, key, config@, after@, view);
    assert(after@.memory == crate::memory::counters(after.in_memory));
    assert(before@.memory == crate::memory::counters(before.in_memory));
    let asks = before.storage_type is Redis || (before.storage_type is RedisAndMemoryMix
        && in_memory(before, key) is None);
    if !asks {
        let found = in_memory(before, key);
        let times = crate::laws::cycles::clock_decides(
            before@,
            key,
            found,
            config@,
            after@,
            view,
        );
        assert(crate::time::shown(times.0) && crate::time::shown(times.1));
    }
}

/// A request goes on with the reply of Redis: a failure is handed on, and otherwise the request is
/// decided by the counter that Redis gave, at two times that the clock showed.
pub proof fn request_goes_on_with_the_reply<C>(
    before: Limiter<C>,
    after: Limiter<C>,
    fetch: RedisFetch,
    reply: Result<Option<Entity>, LimiterError>,
    config: BucketConfig,
    step: Option<LimitStep>,
)
    requires
        exists|limiter: &mut Limiter<C>| #[trigger]
            call_ensures(Limiter::<C>::limit_this_fetched, (limiter, fetch, reply, &config), step)
                && *limiter == before && *final(limiter) == after,
    ensures
        match reply {
            Err(error) => {
                &&& step matches Some(LimitStep::Done(Err(told))) && told == error
                &&& counters_stay(before, after)
                &&& settings_stay(before, after)
            },
            Ok(found) => {
                let early = before.storage_type is RedisAndMemoryMix && (found matches Some(entity)
                    && entity.last_accessed_at > fetch.now);
                let examined = before@.fetched(fetch@, crate::entity::entity_view(found));
                if early {
                    step is None && counters_stay(before, after) && settings_stay(before, after)
                } else {
                    exists|now: u64, update_now: u64|
                        {
                            &&& #[trigger] crate::time::shown(now)
                            &&& #[trigger] crate::time::shown(update_now)
                            &&& match step {
                                Some(step) => (after@, step@) == examined.limit(
                                    fetch.key@,
                                    crate::entity::entity_view(found),
                                    config@,
                                    now as nat,
                                    update_now as nat,
                                ),
                                None => after@ == examined && !examined.limit_in_range(
                                    crate::entity::entity_view(found),
                                    config@,
                                    now as nat,
                                    update_now as nat,
                                ),
                            }
                        }
                }
            },
        },
{
    assert(after@.memory == crate::memory::counters(after.in_memory));
    assert(before@.memory == crate::memory::counters(before.in_memory));
    if let Ok(found) = reply {
        let view = crate::entity::entity_view(found);
        crate::laws::lookups::replies_are_used_unless_time_fails(before@, fetch@, view);
        if before@.fetch_in_range(fetch@, view) {
            let examined = before@.fetched(fetch@, view);
            let times = crate::laws::cycles::clock_decides(
                examined,
                fetch.key@,
                view,
                config@,
                after@,
                crate::entity::step_view(step),
            );
            assert(crate::time::shown(times.0) && crate::time::shown(times.1));
        }
    } else {
        crate::laws::views::steps_are_seen(step->0);
    }
}

/// A charge by the clock does the same at a time that the clock showed, unless, in mixed storage,
/// the counter was accessed later than that; then nothing changes.
pub proof fn charge_by_the_clock<C>(
    before: Limiter<C>,
    after: Limiter<C>,
    key: String,
    entity: Entity,
    config: BucketConfig,
    write: Option<EntityWrite>,
)
    requires
        exists|limiter: &mut Limiter<C>| #[trigger]
            call_ensures(
                Limiter::<C>::decrease_remaining_and_update,
                (limiter, key, entity, &config),
                write,
            ) && *limiter == before && *final(limiter) == after,
    ensures
        exists|now: u64| #[trigger]
            crate::time::shown(now) && {
                let fails = before.storage_type is RedisAndMemoryMix && entity.remaining > 0
                    && entity.last_accessed_at > now;
                match write {
                    Some(write) => {
                        &&& !fails
                        &&& settings_stay(before, after)
                        &&& write.entity.entity_type@ == entity.entity_type@
                        &&& write.entity.initial_supply == entity.initial_supply
                        &&& write.entity.created_at == entity.created_at
                        &&& write.entity.expires_at == entity.expires_at
                        &&& entity.remaining == 0 ==> {
                            &&& counters_stay(before, after)
                            &&& write.entity.remaining == 0
                            &&& write.entity.last_accessed_at == entity.last_accessed_at
                            &&& write.store is None
                        }
                        &&& entity.remaining > 0 ==> {
                            &&& write.entity.remaining == entity.remaining - 1
                            &&& write.entity.last_accessed_at == now
                            &&& write.store is Some <==> before.storage_type !is InMemory
                            &&& write.store matches Some(store) ==> store.key@ == key@
                                && store.duration == config.cycle_duration && store.entity@
                                == write.entity@
                            &&& before.storage_type is InMemory ==> is_counter(
                                in_memory(after, key@),
                                write.entity,
                            )
                            &&& in_memory(after, key@) matches Some(_) ==> before.storage_type is Redis
                                || is_counter(in_memory(after, key@), write.entity)
                        }
                    },
                    None => {
                        &&& fails
                        &&& settings_stay(before, after)
                        &&& counters_stay(before, after)
                    },
                }
            },
{
    let now = choose|now: u64|
        crate::time::shown(now) && now <= crate::time::MAX_TIMESTAMP
            && if #[trigger] before@.decrease_in_range(entity@, now as nat) {
            (after@, crate::entity::write_view(write)) == ({
                let (after, write) = before@.decrease(key@, entity@, config@, now as nat);
                (after, Some(write))
            })
        } else {
            after@ == before@ && write is None
        };
    crate::laws::cycles::charges_are_made_unless_time_fails(before@, entity@, now as nat);
    crate::laws::cycles::charge_is_kept(before@, key@, entity@, config@, now as nat, None);
    assert(after@.memory == crate::memory::counters(after.in_memory));
    assert(before@.memory == crate::memory::counters(before.in_memory));
    if let Some(write) = write {
        assert(write@.entity == write.entity@);
    }
}

/// A check of the counters in memory records what their map takes; in Redis storage there is
/// nothing to check.
pub proof fn check_records_what_the_map_takes<C>(
    before: Limiter<C>,
    after: Limiter<C>,
    check: Option<Usage>,
)
    requires
        exists|limiter: &mut Limiter<C>| #[trigger]
            call_ensures(Limiter::<C>::check_memory, (limiter,), check) && *limiter == before
                && *final(limiter) == after,
    ensures
        counters_stay(before, after),
        after.current_redis_memory_usage_mb == before.current_redis_memory_usage_mb,
        check is None <==> before.storage_type is Redis,
        check is None ==> after.current_memory_usage_mb == before.current_memory_usage_mb,
        check matches Some(usage) ==> {
            &&& after.current_memory_usage_mb as nat == crate::memory_check::megabytes(
                usage.bytes as nat,
            )
            &&& usage.exceeded <==> crate::memory_check::exceeds(
                usage.bytes as nat,
                before.max_memory_size,
            )
            &&& exists|capacity: usize| #[trigger]
                crate::memory::has_room_for(before.in_memory, capacity) && usage.bytes as nat
                    == crate::memory_check::approx_bytes::<String, Entity>(
                    crate::memory::counters(before.in_memory).len(),
                    capacity as nat,
                )
        },
{
    let capacity = choose|capacity: usize|
        {
            &&& before@.storage_type !is Redis ==> crate::memory::has_room_for(
                before.in_memory,
                capacity,
            )
            &&& (after@, check) == #[trigger] before@.memory_checked(capacity as nat)
        };
    assert(after@.memory == crate::memory::counters(after.in_memory));
    assert(before@.memory == crate::memory::counters(before.in_memory));
    if before.storage_type !is Redis {
        crate::memory::room_is_bounded(before.in_memory, capacity);
        crate::memory_check::approx_bytes_are_bounded::<String, Entity>(
            before@.memory.len(),
            capacity as nat,
        );
        crate::memory_check::megabytes_fit(check->0.bytes as nat);
    }
}

/// Redis is asked about its memory exactly if counters are kept there and it is connected.
pub proof fn redis_is_asked_where_it_is_used<C>(limiter: Limiter<C>, yes: bool)
    requires
        call_ensures(Limiter::<C>::checks_redis_memory, (&limiter,), yes),
    ensures
        yes <==> limiter.storage_type !is InMemory && limiter.redis_conn is Some,
{
}

/// The key of a counter, and what a request is told, are made of the bucket and of what is given.
pub proof fn buckets_name_and_tell(
    config: BucketConfig,
    entity_key: String,
    key: String,
    entity: Entity,
    headers: LimiterHeaders,
)
    ensures
        call_ensures(BucketConfig::key, (&config, entity_key), key) ==> {
            let rest = key@.skip(config.name@.len() as int + 1);
            &&& key@.len() > config.name@.len()
            &&& key@.take(config.name@.len() as int) == config.name@
            &&& key@[config.name@.len() as int] == ':'
            &&& match config.limit_by {
                LimitEntityType::Global => rest == "global:_"@,
                LimitEntityType::IP => rest == "ip:"@ + entity_key@,
                LimitEntityType::ProxiedIP => rest == "proxied_ip:"@ + entity_key@,
                LimitEntityType::ID => rest == "id:"@ + entity_key@,
                LimitEntityType::Custom(name) => {
                    &&& rest.take(name@.len() as int) == name@
                    &&& rest[name@.len() as int] == ':'
                    &&& rest.skip(name@.len() as int + 1) == entity_key@
                },
            }
        },
        call_ensures(BucketConfig::headers, (&config, key, &entity), headers) ==> {
            &&& headers.key@ == key@
            &&& headers.bucket@ == config.name@
            &&& headers.limit == entity.initial_supply
            &&& headers.remaining == entity.remaining
            &&& headers.reset == entity.expires_at
        },
{
    crate::laws::lookups::keys_are_made_of_their_parts(config@, entity_key@);
}

/// A fresh counter holds the bucket's maximum for the bucket's duration from now on; an opened one
/// a request less. A cycle fits exactly if its end is a timestamp.
pub proof fn buckets_make_counters(
    config: BucketConfig,
    entity_type: LimitEntityType,
    now: u64,
    entity: Entity,
    fits: bool,
)
    requires
        crate::time::duration_millis(config.cycle_duration) <= u64::MAX,
    ensures
        call_ensures(BucketConfig::fresh, (&config, entity_type, now), entity) ==> {
            &&& entity.entity_type@ == entity_type@
            &&& entity.initial_supply == config.max_requests_per_cycle
            &&& entity.remaining == config.max_requests_per_cycle
            &&& entity.created_at == now
            &&& entity.last_accessed_at == now
            &&& entity.expires_at == now + crate::time::duration_millis(config.cycle_duration)
        },
        config.max_requests_per_cycle > 0 && call_ensures(
            BucketConfig::opened,
            (&config, entity_type, now),
            entity,
        ) ==> {
            &&& entity.entity_type@ == entity_type@
            &&& entity.initial_supply == config.max_requests_per_cycle
            &&& entity.remaining == config.max_requests_per_cycle - 1
            &&& entity.created_at == now
            &&& entity.last_accessed_at == now
            &&& entity.expires_at == now + crate::time::duration_millis(config.cycle_duration)
        },
        call_ensures(BucketConfig::cycle_fits, (&config, now), fits) ==> (fits <==> now
            + crate::time::duration_millis(config.cycle_duration) <= u64::MAX),
{
    crate::laws::cycles::durations_are_counted_in_milliseconds(config.cycle_duration);
}

/// A copy holds what it was copied from.
pub proof fn copies_hold_the_same(
    kind: LimitEntityType,
    kind_copy: LimitEntityType,
    config: BucketConfig,
    config_copy: BucketConfig,
    headers: LimiterHeaders,
    headers_copy: LimiterHeaders,
    entity: Entity,
    entity_copy: Entity,
)
    ensures
        call_ensures(LimitEntityType::clone, (&kind,), kind_copy) ==> kind_copy@ == kind@,
        call_ensures(BucketConfig::clone, (&config,), config_copy) ==> {
            &&& config_copy.name@ == config.name@
            &&& config_copy.limit_by@ == config.limit_by@
            &&& config_copy.max_requests_per_cycle == config.max_requests_per_cycle
            &&& config_copy.cycle_duration == config.cycle_duration
        },
        call_ensures(LimiterHeaders::clone, (&headers,), headers_copy) ==> {
            &&& headers_copy.key@ == headers.key@
            &&& headers_copy.bucket@ == headers.bucket@
            &&& headers_copy.limit == headers.limit
            &&& headers_copy.remaining == headers.remaining
            &&& headers_copy.reset == headers.reset
        },
        call_ensures(Entity::clone, (&entity,), entity_copy) ==> {
            &&& entity_copy.entity_type@ == entity.entity_type@
            &&& entity_copy.initial_supply == entity.initial_supply
            &&& entity_copy.remaining == entity.remaining
            &&& entity_copy.created_at == entity.created_at
            &&& entity_copy.expires_at == entity.expires_at
            &&& entity_copy.last_accessed_at == entity.last_accessed_at
        },
{
    assert(config_copy@ == config@ ==> config_copy@.max_requests_per_cycle
        == config@.max_requests_per_cycle);
}

} // verus!
