//! Building a limiter setting by setting.

use crate::limiter::Limiter;
use crate::model::LimiterView;
use crate::storage::{StorageConfig, StorageType};
use core::time::Duration;
use vstd::prelude::*;

verus! {

/// The settings that have been made so far. `C` is the type of the Redis connection.
#[derive(Debug, Clone)]
pub struct LimiterBuilder<C> {
    pub storage_config: StorageConfig<C>,
}

impl<C> Limiter<C> {
    /// Returns a builder without settings.
    pub fn builder() -> (builder: LimiterBuilder<C>)
        ensures
            builder.storage_config == crate::builder::no_settings::<C>(),
    {
        LimiterBuilder::default()
    }
}

/// No setting made.
pub open spec fn no_settings<C>() -> StorageConfig<C> {
    StorageConfig {
        storage_type: None,
        redis_conn: None,
        max_memory_size: None,
        max_redis_size: None,
        acceptable_last_accesed_time_to_cache_redis_in_memory: None,
    }
}

/// One setting of a builder, with its value.
pub enum Setting<C> {
    StorageType(StorageType),
    RedisConn(C),
    MaxMemorySize(u64),
    MaxRedisSize(u64),
    Acceptable(Duration),
}

impl<C> Setting<C> {
    /// Whether two settings are of the same thing.
    pub open spec fn same_thing(self, other: Self) -> bool {
        match self {
            Setting::StorageType(_) => other is StorageType,
            Setting::RedisConn(_) => other is RedisConn,
            Setting::MaxMemorySize(_) => other is MaxMemorySize,
            Setting::MaxRedisSize(_) => other is MaxRedisSize,
            Setting::Acceptable(_) => other is Acceptable,
        }
    }

    /// Whether a limiter has this setting.
    pub open spec fn holds_in(self, limiter: LimiterView<C>) -> bool {
        match self {
            Setting::StorageType(storage_type) => limiter.storage_type == storage_type,
            Setting::RedisConn(redis_conn) => limiter.redis_conn == Some(redis_conn),
            Setting::MaxMemorySize(max) => limiter.max_memory_size == Some(max),
            Setting::MaxRedisSize(max) => limiter.max_redis_size == Some(max),
            Setting::Acceptable(acceptable) => limiter.acceptable == acceptable,
        }
    }
}

/// The settings of a builder once one more has been made.
pub open spec fn with_setting<C>(config: StorageConfig<C>, setting: Setting<C>) -> StorageConfig<C> {
    match setting {
        Setting::StorageType(storage_type) => StorageConfig {
            storage_type: Some(storage_type),
            ..config
        },
        Setting::RedisConn(redis_conn) => StorageConfig { redis_conn: Some(redis_conn), ..config },
        Setting::MaxMemorySize(max) => StorageConfig { max_memory_size: Some(max), ..config },
        Setting::MaxRedisSize(max) => StorageConfig { max_redis_size: Some(max), ..config },
        Setting::Acceptable(acceptable) => StorageConfig {
            acceptable_last_accesed_time_to_cache_redis_in_memory: Some(acceptable),
            ..config
        },
    }
}

/// The settings of a builder once these have been made, one after the other.
pub open spec fn settings_made<C>(settings: Seq<Setting<C>>) -> StorageConfig<C>
    decreases settings.len(),
{
    if settings.len() == 0 {
        no_settings()
    } else {
        with_setting(settings_made(settings.drop_last()), settings.last())
    }
}

/// The limiter that is made by the settings: in memory unless another storage is set, and with
/// five seconds as the acceptable time unless another is set. Its memory is to be checked every
/// five seconds.
pub open spec fn built<C>(config: StorageConfig<C>) -> LimiterView<C> {
    LimiterView {
        storage_type: match config.storage_type {
            Some(storage_type) => storage_type,
            None => StorageType::InMemory,
        },
        redis_conn: config.redis_conn,
        memory: Map::empty(),
        max_memory_size: config.max_memory_size,
        max_redis_size: config.max_redis_size,
        acceptable: match config.acceptable_last_accesed_time_to_cache_redis_in_memory {
            Some(acceptable) => acceptable,
            None => crate::time::seconds(5),
        },
        current_redis_memory_usage_mb: 0,
        current_memory_usage_mb: 0,
        memory_check_interval: Some(crate::time::seconds(5)),
    }
}

impl<C> LimiterBuilder<C> {
    /// Returns a builder without settings.
    pub fn default() -> (builder: Self)
        ensures
            builder.storage_config == crate::builder::no_settings::<C>(),
    {
        LimiterBuilder {
            storage_config: StorageConfig {
                storage_type: None,
                redis_conn: None,
                max_memory_size: None,
                max_redis_size: None,
                acceptable_last_accesed_time_to_cache_redis_in_memory: None,
            },
        }
    }

    pub fn set_storage_type(self, storage_type: StorageType) -> (builder: Self)
        ensures
            builder.storage_config == crate::builder::with_setting(
                self.storage_config,
                Setting::StorageType(storage_type),
            ),
    {
        let mut builder = self;
        builder.storage_config.storage_type = Some(storage_type);
        builder
    }

    pub fn set_redis_conn(self, redis_conn: C) -> (builder: Self)
        ensures
            builder.storage_config == crate::builder::with_setting(
                self.storage_config,
                Setting::RedisConn(redis_conn),
            ),
    {
        let mut builder = self;
        builder.storage_config.redis_conn = Some(redis_conn);
        builder
    }

    pub fn set_max_memory_size(self, max_memory_size: u64) -> (builder: Self)
        ensures
            builder.storage_config == crate::builder::with_setting(
                self.storage_config,
                Setting::MaxMemorySize(max_memory_size),
            ),
    {
        let mut builder = self;
        builder.storage_config.max_memory_size = Some(max_memory_size);
        builder
    }

    pub fn set_max_redis_size(self, max_redis_size: u64) -> (builder: Self)
        ensures
            builder.storage_config == crate::builder::with_setting(
                self.storage_config,
                Setting::MaxRedisSize(max_redis_size),
            ),
    {
        let mut builder = self;
        builder.storage_config.max_redis_size = Some(max_redis_size);
        builder
    }

    pub fn set_acceptable_last_accesed_time_to_cache_redis_in_memory(
        self,
        acceptable_last_accesed_time_to_cache_redis_in_memory: Duration,
    ) -> (builder: Self)
        ensures
            builder.storage_config == crate::builder::with_setting(
                self.storage_config,
                Setting::Acceptable(acceptable_last_accesed_time_to_cache_redis_in_memory),
            ),
    {
        let mut builder = self;
        builder.storage_config.acceptable_last_accesed_time_to_cache_redis_in_memory = Some(
            acceptable_last_accesed_time_to_cache_redis_in_memory,
        );
        builder
    }

    /// Makes a limiter by the settings: in memory unless another storage is set, and with five
    /// seconds as the acceptable time unless another is set. Its memory is to be checked every
    /// five seconds.
    pub fn build(self) -> (limiter: Limiter<C>)
        ensures
            limiter@ == crate::builder::built(self.storage_config),
    {
        let config = self.storage_config;
        let storage_type = match config.storage_type {
            Some(storage_type) => storage_type,
            None => StorageType::InMemory,
        };
        let acceptable = match config.acceptable_last_accesed_time_to_cache_redis_in_memory {
            Some(acceptable) => acceptable,
            None => Duration::from_secs(5),
        };
        let mut limiter = Limiter::new(
            storage_type,
            config.redis_conn,
            config.max_memory_size,
            config.max_redis_size,
            acceptable,
        );
        limiter.start_memory_check_task(Duration::from_secs(5));
        limiter
    }
}

} // verus!
