//! What a request does to its counter, said of the numbers that the counter holds.

use crate::entity::{
    BucketConfigView, EntityView, LimitEntityTypeView, LimitStepView, LimiterHeadersView,
};
use crate::errors::LimiterError;
use crate::model::LimiterView;
use crate::storage::StorageType;
use core::time::Duration;
use vstd::prelude::*;

verus! {

/// A length of time that fits in a timestamp is counted in full. Of a longer one a multiple of
/// what a timestamp can hold is left out.
pub proof fn durations_are_counted_in_milliseconds(duration: Duration)
    ensures
        crate::time::timestamp_millis(duration) <= u64::MAX,
        crate::time::duration_millis(duration) <= u64::MAX ==> crate::time::timestamp_millis(
            duration,
        ) == crate::time::duration_millis(duration),
        exists|left_out: nat|
            crate::time::duration_millis(duration) == crate::time::timestamp_millis(duration)
                + #[trigger] (left_out * 0x1_0000_0000_0000_0000),
{
    let millis = crate::time::duration_millis(duration) as int;
    vstd::arithmetic::div_mod::lemma_fundamental_div_mod(millis, 0x1_0000_0000_0000_0000);
    let left_out = (millis / 0x1_0000_0000_0000_0000) as nat;
    assert(millis == crate::time::timestamp_millis(duration) + left_out * 0x1_0000_0000_0000_0000);
}

/// A cycle lasts for the duration that the bucket says, in milliseconds, and fits where its end
/// is a timestamp.
pub proof fn cycles_last_for_their_duration(config: BucketConfigView, now: nat)
    requires
        crate::time::duration_millis(config.cycle_duration) <= u64::MAX,
    ensures
        config.cycle_millis() == crate::time::duration_millis(config.cycle_duration),
        config.cycle_fits(now) <==> now + crate::time::duration_millis(config.cycle_duration)
            <= u64::MAX,
{
    durations_are_counted_in_milliseconds(config.cycle_duration);
}

/// Whether two limiters differ at most in the counters that they keep in memory.
pub open spec fn settings_agree<C>(one: LimiterView<C>, other: LimiterView<C>) -> bool {
    &&& one.storage_type == other.storage_type
    &&& one.redis_conn == other.redis_conn
    &&& one.max_memory_size == other.max_memory_size
    &&& one.max_redis_size == other.max_redis_size
    &&& one.acceptable == other.acceptable
    &&& one.current_redis_memory_usage_mb == other.current_redis_memory_usage_mb
    &&& one.current_memory_usage_mb == other.current_memory_usage_mb
    &&& one.memory_check_interval == other.memory_check_interval
}

/// What an admitted request leaves: a counter, in memory or not, and in Redis or not, with what
/// the request is told.
pub open spec fn leaves<C>(
    before: LimiterView<C>,
    after: LimiterView<C>,
    step: LimitStepView,
    key: Seq<char>,
    counter: EntityView,
    config: BucketConfigView,
    in_memory: bool,
    in_redis: bool,
) -> bool {
    &&& settings_agree(before, after)
    &&& in_memory ==> after.memory == before.memory.insert(key, counter)
    &&& match step {
        LimitStepView::Store(store, _) => {
            &&& in_redis
            &&& store.key == key
            &&& store.entity == counter
            &&& store.duration == config.cycle_duration
        },
        LimitStepView::Done(Ok(_)) => !in_redis,
        _ => false,
    }
}

/// Whether a request was told the key and the bucket that it counts for, and how its counter
/// stands.
pub open spec fn tells(
    told: LimiterHeadersView,
    key: Seq<char>,
    config: BucketConfigView,
    counter: EntityView,
) -> bool {
    &&& told.key == key
    &&& told.bucket == config.name
    &&& told.limit == counter.initial_supply
    &&& told.remaining == counter.remaining
    &&& told.reset == counter.expires_at
}

/// The headers of a step that admits a request.
pub open spec fn headers_of_step(step: LimitStepView) -> Option<LimiterHeadersView> {
    match step {
        LimitStepView::Store(_, headers) => Some(headers),
        LimitStepView::Done(Ok(headers)) => Some(headers),
        _ => None,
    }
}

/// Whether a counter is that of a cycle which a request has opened: the end lies the duration of
/// the bucket's cycle behind the opening, and of the maximum the one request is taken.
pub open spec fn is_opened(
    counter: EntityView,
    entity_type: LimitEntityTypeView,
    config: BucketConfigView,
    at: nat,
) -> bool {
    &&& counter.entity_type == entity_type
    &&& counter.initial_supply == config.max_requests_per_cycle
    &&& counter.remaining + 1 == config.max_requests_per_cycle
    &&& counter.created_at == at
    &&& counter.last_accessed_at == at
    &&& crate::time::duration_millis(config.cycle_duration) <= u64::MAX ==> counter.expires_at == at
        + crate::time::duration_millis(config.cycle_duration)
    &&& counter.expires_at == at + crate::time::timestamp_millis(config.cycle_duration)
}

/// What becomes of a first request rests with the figures of the last check and the limits that
/// are set. It is refused exactly if each storage that would hold its counter takes more than its
/// limit, or if the maximum is nothing. Otherwise it opens a cycle. The counter goes to each
/// storage that takes no more than its limit.
pub proof fn first_request_is_measured_by_the_figures<C>(
    limiter: LimiterView<C>,
    key: Seq<char>,
    config: BucketConfigView,
    now: nat,
    update_now: nat,
)
    ensures
        ({
            let (after, step) = limiter.limit(key, None, config, now, update_now);
            let memory_over = limiter.max_memory_size is Some && limiter.current_memory_usage_mb
                > limiter.max_memory_size->0;
            let redis_over = limiter.max_redis_size is Some && limiter.current_redis_memory_usage_mb
                > limiter.max_redis_size->0;
            let refusal = if limiter.storage_type is InMemory && memory_over {
                Some(LimiterError::MemoryLimitExceeded)
            } else if limiter.storage_type is Redis && redis_over {
                Some(LimiterError::RedisMemoryExceeded)
            } else if limiter.storage_type is RedisAndMemoryMix && memory_over && redis_over {
                Some(LimiterError::BothMemoryAndRedisMemoryExceeded)
            } else if config.max_requests_per_cycle == 0 {
                Some(LimiterError::Limited)
            } else {
                None
            };
            match refusal {
                Some(error) => after == limiter && step == LimitStepView::Done(Err(error)),
                None => exists|counter: EntityView| #[trigger]
                    is_opened(counter, config.limit_by, config, now) && leaves(
                        limiter,
                        after,
                        step,
                        key,
                        counter,
                        config,
                        limiter.storage_type !is Redis && !memory_over,
                        limiter.storage_type !is InMemory && !redis_over,
                    ) && (limiter.storage_type is Redis || memory_over ==> after.memory
                        == limiter.memory) && headers_of_step(step) is Some && tells(
                        headers_of_step(step)->0,
                        key,
                        config,
                        counter,
                    ),
            }
        }),
{
    durations_are_counted_in_milliseconds(config.cycle_duration);
    let counter = config.opened(config.limit_by, now);
    if config.max_requests_per_cycle > 0 {
        assert(is_opened(counter, config.limit_by, config, now));
    }
}

/// A request behind the end of its counter's cycle opens a new one at the time at which the
/// counter is changed, whatever was left and whatever the figures say. The new counter goes to
/// every storage in use, and is of the type of the old one. Where the maximum is nothing the
/// request is refused and nothing changes.
pub proof fn ended_cycle_is_followed_by_another<C>(
    limiter: LimiterView<C>,
    key: Seq<char>,
    entity: EntityView,
    config: BucketConfigView,
    now: nat,
    update_now: nat,
)
    requires
        now > entity.expires_at,
    ensures
        ({
            let (after, step) = limiter.limit(key, Some(entity), config, now, update_now);
            if config.max_requests_per_cycle == 0 {
                after == limiter && step == LimitStepView::Done(Err(LimiterError::Limited))
            } else {
                exists|counter: EntityView| #[trigger]
                    is_opened(counter, entity.entity_type, config, update_now) && leaves(
                        limiter,
                        after,
                        step,
                        key,
                        counter,
                        config,
                        limiter.storage_type !is Redis,
                        limiter.storage_type !is InMemory,
                    ) && (limiter.storage_type is Redis ==> after.memory == limiter.memory)
                        && headers_of_step(step) is Some && tells(
                        headers_of_step(step)->0,
                        key,
                        config,
                        counter,
                    )
            }
        }),
{
    durations_are_counted_in_milliseconds(config.cycle_duration);
    let counter = config.opened(entity.entity_type, update_now);
    if config.max_requests_per_cycle > 0 {
        assert(is_opened(counter, entity.entity_type, config, update_now));
    }
}

/// Whether a counter is another one with one request taken, accessed at `at`.
pub open spec fn is_charged(counter: EntityView, before: EntityView, at: nat) -> bool {
    &&& counter.remaining + 1 == before.remaining
    &&& counter.last_accessed_at == at
    &&& counter.entity_type == before.entity_type
    &&& counter.initial_supply == before.initial_supply
    &&& counter.created_at == before.created_at
    &&& counter.expires_at == before.expires_at
}

/// A request up to the end of its counter's cycle takes one of what is left; where nothing is
/// left it is refused, and nothing changes. The charged counter goes to every storage in use,
/// but in mixed storage not to memory where the last access lies further back than the acceptable
/// time: there the counter leaves memory.
pub proof fn request_in_a_cycle_takes_one<C>(
    limiter: LimiterView<C>,
    key: Seq<char>,
    entity: EntityView,
    config: BucketConfigView,
    now: nat,
    update_now: nat,
)
    requires
        now <= entity.expires_at,
    ensures
        ({
            let (after, step) = limiter.limit(key, Some(entity), config, now, update_now);
            let idle = limiter.storage_type is RedisAndMemoryMix && update_now
                > entity.last_accessed_at + crate::time::timestamp_millis(limiter.acceptable);
            if entity.remaining == 0 {
                after == limiter && step == LimitStepView::Done(Err(LimiterError::Limited))
            } else {
                exists|counter: EntityView| #[trigger]
                    is_charged(counter, entity, update_now) && leaves(
                        limiter,
                        after,
                        step,
                        key,
                        counter,
                        config,
                        limiter.storage_type !is Redis && !idle,
                        limiter.storage_type !is InMemory,
                    ) && (limiter.storage_type is Redis ==> after.memory == limiter.memory) && (idle
                        ==> after.memory == limiter.memory.remove(key)) && headers_of_step(
                        step,
                    ) is Some && tells(headers_of_step(step)->0, key, config, counter)
            }
        }),
{
    if entity.remaining > 0 {
        assert(is_charged(entity.charged().accessed(update_now), entity, update_now));
    }
}

/// No cycle is opened before the one that a request has opened is over. A request that finds the
/// counter of that cycle, up to the cycle's duration behind its opening, is told of the same end
/// or refused; one behind that time opens the next, and is told of the next end.
pub proof fn cycles_do_not_overlap<C>(
    first: LimiterView<C>,
    key: Seq<char>,
    found: Option<EntityView>,
    config: BucketConfigView,
    first_now: nat,
    first_update: nat,
    second: LimiterView<C>,
    counter: EntityView,
    now: nat,
    update_now: nat,
)
    requires
        crate::time::duration_millis(config.cycle_duration) <= u64::MAX,
        found matches Some(entity) ==> first_now > entity.expires_at,
        headers_of_step(first.limit(key, found, config, first_now, first_update).1) matches Some(
            told,
        ) && counter.expires_at == told.reset,
    ensures
        ({
            let opened_at = if found is None {
                first_now
            } else {
                first_update
            };
            let end = opened_at + crate::time::duration_millis(config.cycle_duration);
            let step = second.limit(key, Some(counter), config, now, update_now).1;
            &&& now <= end ==> step == LimitStepView::Done(Err(LimiterError::Limited)) || (
            headers_of_step(step) matches Some(told) && told.reset == end)
            &&& now > end ==> (headers_of_step(step) matches Some(told) && told.reset == update_now
                + crate::time::duration_millis(config.cycle_duration))
        }),
{
    durations_are_counted_in_milliseconds(config.cycle_duration);
}

/// In every storage, of the requests on one key that come within the duration of a bucket's cycle
/// from the first one on, exactly the bucket's maximum is admitted, or all if there are no more.
/// The entity has no counter before, and there is room for one.
pub proof fn maximum_is_admitted_within_the_duration<C>(
    before: Seq<LimiterView<C>>,
    after: Seq<LimiterView<C>>,
    stored: Seq<Option<EntityView>>,
    key: Seq<char>,
    config: BucketConfigView,
    lookups: Seq<u64>,
    times: Seq<(u64, u64)>,
    steps: Seq<LimitStepView>,
)
    requires
        crate::time::duration_millis(config.cycle_duration) <= u64::MAX,
        crate::laws::storage_run(before, after, stored, key, config, lookups, times, steps),
        steps.len() > 0,
        before[0].storage_type !is Redis ==> !before[0].memory.contains_key(key),
        before[0].storage_type !is InMemory ==> stored[0] is None,
        before[0].max_memory_size is None,
        before[0].max_redis_size is None,
        forall|i: int|
            0 <= i < times.len() ==> (#[trigger] times[i]).0 <= times[0].0
                + crate::time::duration_millis(config.cycle_duration),
    ensures
        config.max_requests_per_cycle <= steps.len() ==> crate::laws::admitting(steps)
            == config.max_requests_per_cycle,
        config.max_requests_per_cycle >= steps.len() ==> crate::laws::admitting(steps)
            == steps.len(),
{
    durations_are_counted_in_milliseconds(config.cycle_duration);
    crate::laws::first_cycle_is_limited(
        before,
        after,
        stored,
        key,
        config,
        lookups,
        times,
        steps,
    );
}

/// What a reset returns is what the next lookup comes to, in every storage: a counter with the
/// whole supply, for a cycle of the bucket's duration. It is written in memory unless the storage
/// is Redis, and handed to Redis unless the storage is memory. No other counter and no setting
/// changes.
pub proof fn reset_is_kept<C>(
    limiter: LimiterView<C>,
    key: Seq<char>,
    entity_type: LimitEntityTypeView,
    config: BucketConfigView,
    now: nat,
    stored: Option<EntityView>,
)
    ensures
        ({
            let (after, write) = limiter.reset(key, entity_type, config, now);
            let in_redis = match write.store {
                Some(store) => Some(store.entity),
                None => stored,
            };
            &&& write.entity.entity_type == entity_type
            &&& write.entity.initial_supply == config.max_requests_per_cycle
            &&& write.entity.remaining == config.max_requests_per_cycle
            &&& write.entity.created_at == now
            &&& write.entity.last_accessed_at == now
            &&& crate::time::duration_millis(config.cycle_duration) <= u64::MAX
                ==> write.entity.expires_at == now + crate::time::duration_millis(
                config.cycle_duration,
            )
            &&& write.entity.expires_at == now + crate::time::timestamp_millis(
                config.cycle_duration,
            )
            &&& write.store is Some <==> limiter.storage_type !is InMemory
            &&& write.store matches Some(store) ==> store.key == key && store.entity == write.entity
                && store.duration == config.cycle_duration
            &&& settings_agree(limiter, after)
            &&& after.memory == if limiter.storage_type is Redis {
                limiter.memory
            } else {
                limiter.memory.insert(key, write.entity)
            }
            &&& after.kept(key, in_redis) == Some(write.entity)
        }),
{
    durations_are_counted_in_milliseconds(config.cycle_duration);
}

/// A charge returns the counter with one request taken, and that is what the next lookup comes
/// to, in every storage. A counter with nothing left is returned as it is, and nothing is written.
pub proof fn charge_is_kept<C>(
    limiter: LimiterView<C>,
    key: Seq<char>,
    entity: EntityView,
    config: BucketConfigView,
    now: nat,
    stored: Option<EntityView>,
)
    ensures
        ({
            let (after, write) = limiter.decrease(key, entity, config, now);
            let in_redis = match write.store {
                Some(store) => Some(store.entity),
                None => stored,
            };
            let idle = limiter.storage_type is RedisAndMemoryMix && now > entity.last_accessed_at
                + crate::time::timestamp_millis(limiter.acceptable);
            &&& settings_agree(limiter, after)
            &&& entity.remaining == 0 ==> after.memory == limiter.memory && write.entity == entity
                && write.store is None
            &&& entity.remaining > 0 ==> {
                &&& is_charged(write.entity, entity, now)
                &&& write.store is Some <==> limiter.storage_type !is InMemory
                &&& write.store matches Some(store) ==> store.key == key && store.entity
                    == write.entity && store.duration == config.cycle_duration
                &&& after.memory == if limiter.storage_type is Redis {
                    limiter.memory
                } else if idle {
                    limiter.memory.remove(key)
                } else {
                    limiter.memory.insert(key, write.entity)
                }
                &&& after.kept(key, in_redis) == Some(write.entity)
            }
        }),
{
}

/// A request can be decided exactly if the end of a cycle that it opens is a timestamp and, in
/// mixed storage, the counter that it charges was not accessed later than now.
pub proof fn requests_are_decided_unless_time_fails<C>(
    limiter: LimiterView<C>,
    found: Option<EntityView>,
    config: BucketConfigView,
    now: nat,
    update_now: nat,
)
    ensures
        ({
            let cycle = crate::time::timestamp_millis(config.cycle_duration);
            let fails = match found {
                None => now + cycle > u64::MAX,
                Some(entity) => {
                    ||| now > entity.expires_at && update_now + cycle > u64::MAX
                    ||| now <= entity.expires_at && limiter.storage_type is RedisAndMemoryMix
                        && entity.remaining > 0 && entity.last_accessed_at > update_now
                },
            };
            limiter.limit_in_range(found, config, now, update_now) <==> !fails
        }),
{
}

/// A charge can be made exactly if the storage is not mixed, nothing is left, or the counter was
/// not accessed later than now.
pub proof fn charges_are_made_unless_time_fails<C>(
    limiter: LimiterView<C>,
    entity: EntityView,
    now: nat,
)
    ensures
        limiter.decrease_in_range(entity, now) <==> !(limiter.storage_type
            == StorageType::RedisAndMemoryMix && entity.remaining > 0 && entity.last_accessed_at
            > now),
{
}

/// A request that is decided by the clock is decided at two times that the clock showed. It has no
/// step, and changes nothing, exactly if the time fails.
pub proof fn clock_decides<C>(
    limiter: LimiterView<C>,
    key: Seq<char>,
    found: Option<EntityView>,
    config: BucketConfigView,
    after: LimiterView<C>,
    step: Option<LimitStepView>,
) -> (times: (u64, u64))
    requires
        limiter.limited(key, found, config, after, step),
    ensures
        crate::time::shown(times.0),
        crate::time::shown(times.1),
        step is None <==> !limiter.limit_in_range(found, config, times.0 as nat, times.1 as nat),
        step is None ==> after == limiter,
        step matches Some(step) ==> (after, step) == limiter.limit(
            key,
            found,
            config,
            times.0 as nat,
            times.1 as nat,
        ),
{
    let (now, update_now) = choose|now: u64, update_now: u64| #[trigger]
        limiter.limited_at(key, found, config, now, update_now, after, step);
    (now, update_now)
}

} // verus!
