//! What holds of a limiter that is built setting by setting.

use crate::builder::{LimiterBuilder, Setting};
use crate::limiter::Limiter;
use crate::storage::{StorageConfig, StorageType};
use core::time::Duration;
use vstd::prelude::*;

verus! {

/// A setting is the one that is made; every other stays.
pub proof fn settings_change_one_thing<C>(
    config: StorageConfig<C>,
    storage_type: StorageType,
    redis_conn: C,
    max: u64,
    acceptable: Duration,
)
    ensures
        ({
            let after = crate::builder::with_setting(config, Setting::StorageType(storage_type));
            &&& after.storage_type == Some(storage_type)
            &&& after.redis_conn == config.redis_conn
            &&& after.max_memory_size == config.max_memory_size
            &&& after.max_redis_size == config.max_redis_size
            &&& after.acceptable_last_accesed_time_to_cache_redis_in_memory
                == config.acceptable_last_accesed_time_to_cache_redis_in_memory
        }),
        ({
            let after = crate::builder::with_setting(config, Setting::RedisConn(redis_conn));
            &&& after.redis_conn == Some(redis_conn)
            &&& after.storage_type == config.storage_type
            &&& after.max_memory_size == config.max_memory_size
            &&& after.max_redis_size == config.max_redis_size
            &&& after.acceptable_last_accesed_time_to_cache_redis_in_memory
                == config.acceptable_last_accesed_time_to_cache_redis_in_memory
        }),
        ({
            let after = crate::builder::with_setting(config, Setting::MaxMemorySize(max));
            &&& after.max_memory_size == Some(max)
            &&& after.storage_type == config.storage_type
            &&& after.redis_conn == config.redis_conn
            &&& after.max_redis_size == config.max_redis_size
            &&& after.acceptable_last_accesed_time_to_cache_redis_in_memory
                == config.acceptable_last_accesed_time_to_cache_redis_in_memory
        }),
        ({
            let after = crate::builder::with_setting(config, Setting::MaxRedisSize(max));
            &&& after.max_redis_size == Some(max)
            &&& after.storage_type == config.storage_type
            &&& after.redis_conn == config.redis_conn
            &&& after.max_memory_size == config.max_memory_size
            &&& after.acceptable_last_accesed_time_to_cache_redis_in_memory
                == config.acceptable_last_accesed_time_to_cache_redis_in_memory
        }),
        ({
            let after = crate::builder::with_setting(config, Setting::Acceptable(acceptable));
            &&& after.acceptable_last_accesed_time_to_cache_redis_in_memory == Some(acceptable)
            &&& after.storage_type == config.storage_type
            &&& after.redis_conn == config.redis_conn
            &&& after.max_memory_size == config.max_memory_size
            &&& after.max_redis_size == config.max_redis_size
        }),
{
}

/// Each setter keeps the value that it is given.
pub proof fn setters_keep_their_value<C>(
    builder: LimiterBuilder<C>,
    storage_type: StorageType,
    redis_conn: C,
    max: u64,
    acceptable: Duration,
    after: LimiterBuilder<C>,
)
    ensures
        call_ensures(LimiterBuilder::<C>::set_storage_type, (builder, storage_type), after)
            ==> after.storage_config.storage_type == Some(storage_type),
        call_ensures(LimiterBuilder::<C>::set_redis_conn, (builder, redis_conn), after)
            ==> after.storage_config.redis_conn == Some(redis_conn),
        call_ensures(LimiterBuilder::<C>::set_max_memory_size, (builder, max), after)
            ==> after.storage_config.max_memory_size == Some(max),
        call_ensures(LimiterBuilder::<C>::set_max_redis_size, (builder, max), after)
            ==> after.storage_config.max_redis_size == Some(max),
        call_ensures(
            LimiterBuilder::<C>::set_acceptable_last_accesed_time_to_cache_redis_in_memory,
            (builder, acceptable),
            after,
        ) ==> after.storage_config.acceptable_last_accesed_time_to_cache_redis_in_memory == Some(
            acceptable,
        ),
{
}

/// A builder starts without settings.
pub proof fn builders_start_without_settings<C>(builder: LimiterBuilder<C>)
    requires
        call_ensures(Limiter::<C>::builder, (), builder) || call_ensures(
            LimiterBuilder::<C>::default,
            (),
            builder,
        ),
    ensures
        builder.storage_config.storage_type is None,
        builder.storage_config.redis_conn is None,
        builder.storage_config.max_memory_size is None,
        builder.storage_config.max_redis_size is None,
        builder.storage_config.acceptable_last_accesed_time_to_cache_redis_in_memory is None,
{
}

/// A limiter is built with the settings that were made. Without them it keeps counters in memory,
/// without limits, and holds five seconds as the acceptable time. It has counted nothing, and its
/// memory is to be checked every five seconds.
pub proof fn limiters_are_built_by_their_settings<C>(
    builder: LimiterBuilder<C>,
    limiter: Limiter<C>,
)
    requires
        call_ensures(LimiterBuilder::<C>::build, (builder,), limiter),
    ensures
        ({
            let config = builder.storage_config;
            let acceptable = config.acceptable_last_accesed_time_to_cache_redis_in_memory;
            &&& config.storage_type matches Some(storage_type) ==> limiter.storage_type
                == storage_type
            &&& config.storage_type is None ==> limiter.storage_type == StorageType::InMemory
            &&& limiter.redis_conn == config.redis_conn
            &&& limiter.max_memory_size == config.max_memory_size
            &&& limiter.max_redis_size == config.max_redis_size
            &&& acceptable matches Some(acceptable)
                ==> limiter.acceptable_last_accesed_time_to_cache_redis_in_memory == acceptable
            &&& acceptable is None
                ==> limiter.acceptable_last_accesed_time_to_cache_redis_in_memory
                == crate::time::seconds(5)
            &&& limiter.memory_check_interval == Some(crate::time::seconds(5))
            &&& limiter.current_memory_usage_mb == 0
            &&& limiter.current_redis_memory_usage_mb == 0
            &&& crate::memory::counters(limiter.in_memory).len() == 0
            &&& forall|key: Seq<char>| !#[trigger]
                crate::memory::counters(limiter.in_memory).contains_key(key)
        }),
{
    assert(limiter@.memory == crate::memory::counters(limiter.in_memory));
    assert(limiter@.memory == Map::<Seq<char>, crate::entity::EntityView>::empty());
}

/// A limiter that is made directly holds what it is given, has counted nothing, and has no check
/// of its memory started.
pub proof fn limiters_hold_what_they_are_given<C>(
    storage_type: StorageType,
    redis_conn: Option<C>,
    max_memory_size: Option<u64>,
    max_redis_size: Option<u64>,
    acceptable: Duration,
    limiter: Limiter<C>,
)
    requires
        call_ensures(
            Limiter::<C>::new,
            (storage_type, redis_conn, max_memory_size, max_redis_size, acceptable),
            limiter,
        ),
    ensures
        limiter.storage_type == storage_type,
        limiter.redis_conn == redis_conn,
        limiter.max_memory_size == max_memory_size,
        limiter.max_redis_size == max_redis_size,
        limiter.acceptable_last_accesed_time_to_cache_redis_in_memory == acceptable,
        limiter.memory_check_interval is None,
        limiter.current_memory_usage_mb == 0,
        limiter.current_redis_memory_usage_mb == 0,
        forall|key: Seq<char>| !#[trigger]
            crate::memory::counters(limiter.in_memory).contains_key(key),
{
    assert(limiter@.memory == crate::memory::counters(limiter.in_memory));
    assert(limiter@.redis_conn == redis_conn);
}

/// Of the settings of one thing that were made one after the other, the last one counts.
pub proof fn last_value_of_each_setting_counts<C>(settings: Seq<Setting<C>>, at: int)
    requires
        0 <= at < settings.len(),
    ensures
        ({
            let limiter = crate::builder::built(crate::builder::settings_made(settings));
            &&& settings[at] matches Setting::StorageType(storage_type) ==> ((forall|i: int|
                at < i < settings.len() ==> (#[trigger] settings[i]) !is StorageType)
                ==> limiter.storage_type == storage_type)
            &&& settings[at] matches Setting::RedisConn(redis_conn) ==> ((forall|i: int|
                at < i < settings.len() ==> (#[trigger] settings[i]) !is RedisConn)
                ==> limiter.redis_conn == Some(redis_conn))
            &&& settings[at] matches Setting::MaxMemorySize(max) ==> ((forall|i: int|
                at < i < settings.len() ==> (#[trigger] settings[i]) !is MaxMemorySize)
                ==> limiter.max_memory_size == Some(max))
            &&& settings[at] matches Setting::MaxRedisSize(max) ==> ((forall|i: int|
                at < i < settings.len() ==> (#[trigger] settings[i]) !is MaxRedisSize)
                ==> limiter.max_redis_size == Some(max))
            &&& settings[at] matches Setting::Acceptable(acceptable) ==> ((forall|i: int|
                at < i < settings.len() ==> (#[trigger] settings[i]) !is Acceptable)
                ==> limiter.acceptable == acceptable)
        }),
    decreases settings.len(),
{
    let earlier = settings.drop_last();
    assert(forall|i: int| 0 <= i < earlier.len() ==> #[trigger] earlier[i] == settings[i]);
    assert(settings.last() == settings[settings.len() - 1]);
    if at < earlier.len() {
        last_value_of_each_setting_counts(earlier, at);
    }
}

} // verus!
