//! The mathematical values that stand for counters, buckets, steps and limiters hold what those
//! hold.

use crate::entity::{
    BucketConfig, Entity, EntityWrite, EntityWriteView, LimitEntityType, LimitEntityTypeView,
    LimitStep, LimitStepView, LimiterHeaders, Lookup, LookupView, RedisFetch, RedisStore,
};
use crate::limiter::Limiter;
use vstd::prelude::*;

verus! {

/// The way in which requests are told apart is one of five; a way of one's own has a name.
pub proof fn entity_types_are_seen(kind: LimitEntityType)
    ensures
        match kind {
            LimitEntityType::Global => kind@ is Global,
            LimitEntityType::IP => kind@ is IP,
            LimitEntityType::ProxiedIP => kind@ is ProxiedIP,
            LimitEntityType::ID => kind@ is ID,
            LimitEntityType::Custom(name) => kind@ == LimitEntityTypeView::Custom(name@),
        },
{
}

/// A bucket is seen with all that it says.
pub proof fn buckets_are_seen(config: BucketConfig)
    ensures
        config@.name == config.name@,
        config@.limit_by == config.limit_by@,
        config@.max_requests_per_cycle == config.max_requests_per_cycle,
        config@.cycle_duration == config.cycle_duration,
{
}

/// A counter is seen with all that it holds; a missing one is seen as missing.
pub proof fn counters_are_seen(entity: Entity)
    ensures
        entity@.entity_type == entity.entity_type@,
        entity@.initial_supply == entity.initial_supply,
        entity@.remaining == entity.remaining,
        entity@.created_at == entity.created_at,
        entity@.expires_at == entity.expires_at,
        entity@.last_accessed_at == entity.last_accessed_at,
        crate::entity::entity_view(Some(entity)) == Some(entity@),
        crate::entity::entity_view(None) is None,
{
}

/// What a request is told is seen in full.
pub proof fn headers_are_seen(headers: LimiterHeaders)
    ensures
        headers@.key == headers.key@,
        headers@.bucket == headers.bucket@,
        headers@.limit == headers.limit,
        headers@.remaining == headers.remaining,
        headers@.reset == headers.reset,
{
}

/// What is to be read from Redis, and what is to be stored there, is seen in full.
pub proof fn redis_work_is_seen(fetch: RedisFetch, store: RedisStore)
    ensures
        fetch@.key == fetch.key@,
        fetch@.now == fetch.now,
        fetch@.acceptable == fetch.acceptable,
        store@.key == store.key@,
        store@.entity == store.entity@,
        store@.duration == store.duration,
{
}

/// A lookup is seen as what it came to.
pub proof fn lookups_are_seen(lookup: Lookup)
    ensures
        match lookup {
            Lookup::Ready(None) => lookup@ == LookupView::Ready(None),
            Lookup::Ready(Some(entity)) => lookup@ == LookupView::Ready(Some(entity@)),
            Lookup::Fetch(fetch) => lookup@ == LookupView::Fetch(fetch@),
        },
{
}

/// A change of a counter is seen with the counter and with what is to be stored.
pub proof fn writes_are_seen(write: EntityWrite)
    ensures
        write@.entity == write.entity@,
        write.store matches Some(store) ==> write@.store == Some(store@),
        write.store is None ==> write@.store is None,
        crate::entity::write_view(Some(write)) == Some(write@),
        crate::entity::write_view(None) == None::<EntityWriteView>,
{
}

/// A step is seen as what it says of the request.
pub proof fn steps_are_seen(step: LimitStep)
    ensures
        match step {
            LimitStep::Done(Ok(headers)) => step@ == LimitStepView::Done(Ok(headers@)),
            LimitStep::Done(Err(error)) => step@ == LimitStepView::Done(Err(error)),
            LimitStep::Fetch(fetch) => step@ == LimitStepView::Fetch(fetch@),
            LimitStep::Store(store, headers) => step@ == LimitStepView::Store(store@, headers@),
        },
        crate::entity::step_view(Some(step)) == Some(step@),
        crate::entity::step_view(None) == None::<LimitStepView>,
{
}

/// A limiter is seen with its settings, its figures and the counters of its map.
pub proof fn limiters_are_seen<C>(limiter: Limiter<C>)
    ensures
        limiter@.storage_type == limiter.storage_type,
        limiter@.redis_conn == limiter.redis_conn,
        limiter@.memory == crate::memory::counters(limiter.in_memory),
        limiter@.max_memory_size == limiter.max_memory_size,
        limiter@.max_redis_size == limiter.max_redis_size,
        limiter@.acceptable == limiter.acceptable_last_accesed_time_to_cache_redis_in_memory,
        limiter@.current_redis_memory_usage_mb == limiter.current_redis_memory_usage_mb,
        limiter@.current_memory_usage_mb == limiter.current_memory_usage_mb,
        limiter@.memory_check_interval == limiter.memory_check_interval,
{
}

} // verus!
