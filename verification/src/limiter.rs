//! The limiter.
//!
//! An operation that needs Redis returns what is to be done there, and a second function goes
//! on with the reply. Where an operation needs the time it reads the clock; beside it stands
//! the same operation at a given time.

use crate::commands::{del_command, get_command, set_command};
pub use crate::builder::LimiterBuilder;
pub use crate::entity::{
    BucketConfig, Entity, EntityWrite, LimitEntityType, LimitStep, LimiterHeaders, Lookup,
    RedisFetch, RedisStore,
};
use crate::errors::LimiterError;
use crate::memory::{memory_get, memory_insert, memory_new, memory_remove};
use crate::model::LimiterView;
use crate::storage::StorageType;
use crate::time::{clock, millis_of};
use core::time::Duration;
use dashmap::DashMap;
use vstd::prelude::*;

verus! {

/// A rate limiter. `C` is the type of the Redis connection, which the limiter only holds.
#[derive(Debug)]
pub struct Limiter<C> {
    pub storage_type: StorageType,
    pub redis_conn: Option<C>,
    /// The counters in memory. Only the limiter changes them.
    pub in_memory: DashMap<String, Entity>,
    /// In MB.
    pub max_memory_size: Option<u64>,
    /// In MB.
    pub max_redis_size: Option<u64>,
    pub acceptable_last_accesed_time_to_cache_redis_in_memory: Duration,
    /// As of the last check.
    pub current_redis_memory_usage_mb: u64,
    /// As of the last check.
    pub current_memory_usage_mb: u64,
    /// How often memory is checked, once that has been started.
    pub memory_check_interval: Option<Duration>,
}

impl<C> View for Limiter<C> {
    type V = LimiterView<C>;

    open spec fn view(&self) -> LimiterView<C> {
        LimiterView {
            storage_type: self.storage_type,
            redis_conn: self.redis_conn,
            memory: crate::memory::counters(self.in_memory),
            max_memory_size: self.max_memory_size,
            max_redis_size: self.max_redis_size,
            acceptable: self.acceptable_last_accesed_time_to_cache_redis_in_memory,
            current_redis_memory_usage_mb: self.current_redis_memory_usage_mb,
            current_memory_usage_mb: self.current_memory_usage_mb,
            memory_check_interval: self.memory_check_interval,
        }
    }
}

impl<C> Limiter<C> {
    /// Makes a limiter that has counted nothing yet, and whose memory is not being checked.
    pub fn new(
        storage_type: StorageType,
        redis_conn: Option<C>,
        max_memory_size: Option<u64>,
        max_redis_size: Option<u64>,
        acceptable_last_accesed_time_to_cache_redis_in_memory: Duration,
    ) -> (limiter: Self)
        ensures
            limiter@ == (LimiterView {
                storage_type,
                redis_conn,
                memory: Map::empty(),
                max_memory_size,
                max_redis_size,
                acceptable: acceptable_last_accesed_time_to_cache_redis_in_memory,
                current_redis_memory_usage_mb: 0,
                current_memory_usage_mb: 0,
                memory_check_interval: None,
            }),
    {
        Limiter {
            storage_type,
            redis_conn,
            in_memory: memory_new(),
            max_memory_size,
            max_redis_size,
            acceptable_last_accesed_time_to_cache_redis_in_memory,
            current_redis_memory_usage_mb: 0,
            current_memory_usage_mb: 0,
            memory_check_interval: None,
        }
    }

    /// Returns the command that stores a serialized value under `key`, to expire after
    /// `duration`. The time is sent as the low bits of its milliseconds, as many as a `usize`
    /// holds.
    pub fn add_to_redis<E>(
        &self,
        key: String,
        value: Result<String, E>,
        duration: Duration,
    ) -> (command: Result<redis::Cmd, LimiterError>)
        ensures
            match (self.redis_conn, value) {
                (None, _) => command == Err::<redis::Cmd, _>(LimiterError::NotRedisConfigured),
                (Some(_), Err(_)) => command == Err::<redis::Cmd, _>(
                    LimiterError::SerializationError,
                ),
                (Some(_), Ok(value)) => command matches Ok(command)
                    && crate::commands::command_words(command) == crate::commands::encoded(
                    seq![
                        "SET"@,
                        key@,
                        value@,
                        "PX"@,
                        crate::text::decimal(
                            crate::time::duration_millis(duration) % (usize::MAX as nat + 1),
                        ),
                    ],
                ),
            },
    {
        if self.redis_conn.is_none() {
            return Err(LimiterError::NotRedisConfigured);
        }
        let millis: usize = (duration.as_millis() % (usize::MAX as u128 + 1)) as usize;
        match value {
            Ok(value) => Ok(set_command(key.as_str(), value.as_str(), millis)),
            Err(_) => Err(LimiterError::SerializationError),
        }
    }

    /// Reads the reply to the command of `add_to_redis`.
    pub fn add_to_redis_reply<T, E>(reply: Result<T, E>) -> (stored: Result<(), LimiterError>)
        ensures
            stored == (match reply {
                Ok(_) => Ok(()),
                Err(_) => Err(LimiterError::RedisSetError),
            }),
    {
        match reply {
            Ok(_) => Ok(()),
            Err(_) => Err(LimiterError::RedisSetError),
        }
    }

    /// Returns the command that reads what is stored under `key`.
    pub fn get_from_redis(&self, key: String) -> (command: Result<redis::Cmd, LimiterError>)
        ensures
            match self.redis_conn {
                None => command == Err::<redis::Cmd, _>(LimiterError::NotRedisConfigured),
                Some(_) => command matches Ok(command) && crate::commands::command_words(command)
                    == crate::commands::encoded(seq!["GET"@, key@]),
            },
    {
        if self.redis_conn.is_none() {
            return Err(LimiterError::NotRedisConfigured);
        }
        Ok(get_command(key.as_str()))
    }

    /// Reads the reply to the command of `get_from_redis`: a value, parsed or not, if one was
    /// stored.
    pub fn get_from_redis_reply<T, D, E>(reply: Result<Option<Result<T, D>>, E>) -> (value: Result<
        Option<T>,
        LimiterError,
    >)
        ensures
            value == (match reply {
                Ok(Some(Ok(value))) => Ok(Some(value)),
                Ok(Some(Err(_))) => Err(LimiterError::DeserializationError),
                Ok(None) => Ok(None),
                Err(_) => Err(LimiterError::RedisGetError),
            }),
    {
        match reply {
            Ok(Some(Ok(value))) => Ok(Some(value)),
            Ok(Some(Err(_))) => Err(LimiterError::DeserializationError),
            Ok(None) => Ok(None),
            Err(_) => Err(LimiterError::RedisGetError),
        }
    }

    /// Returns the command that deletes what is stored under `key`.
    pub fn delete_from_redis(&self, key: String) -> (command: Result<redis::Cmd, LimiterError>)
        ensures
            match self.redis_conn {
                None => command == Err::<redis::Cmd, _>(LimiterError::NotRedisConfigured),
                Some(_) => command matches Ok(command) && crate::commands::command_words(command)
                    == crate::commands::encoded(seq!["DEL"@, key@]),
            },
    {
        if self.redis_conn.is_none() {
            return Err(LimiterError::NotRedisConfigured);
        }
        Ok(del_command(key.as_str()))
    }

    /// Reads the reply to the command of `delete_from_redis`.
    pub fn delete_from_redis_reply<T, E>(reply: Result<T, E>) -> (deleted: Result<(), LimiterError>)
        ensures
            deleted == (match reply {
                Ok(_) => Ok(()),
                Err(_) => Err(LimiterError::RedisDelError),
            }),
    {
        match reply {
            Ok(_) => Ok(()),
            Err(_) => Err(LimiterError::RedisDelError),
        }
    }

    /// Limits a request of `entity_key` by `config`: finds the counter, and decides the request
    /// where that needs no reply from Redis. With the reply, `limit_this_fetched` or
    /// `limit_this_stored` goes on.
    ///
    /// Returns `None`, and changes nothing, where a time cannot be told: a cycle would end
    /// beyond what a timestamp can hold, or, in mixed storage, the clock shows a time before
    /// the last access.
    pub fn limit_this(&mut self, entity_key: String, config: &BucketConfig) -> (step: Option<
        LimitStep,
    >)
        ensures
            old(self)@.started(
                config@.key(entity_key@),
                config@,
                final(self)@,
                crate::entity::step_view(step),
            ),
    {
        let key = config.key(entity_key);
        let ghost key_view = key@;
        let acceptable = self.acceptable_last_accesed_time_to_cache_redis_in_memory;
        let lookup = self.get_entity(key.clone(), acceptable);
        let ghost lookup_view = lookup@;
        let step = match lookup {
            Lookup::Fetch(fetch) => Some(LimitStep::Fetch(fetch)),
            Lookup::Ready(found) => self.limit_found(key, found, config),
        };
        assert(old(self)@.looked_up(key_view, old(self)@.acceptable, lookup_view));
        step
    }

    /// Goes on with a request once Redis has replied to the reading of its counter.
    ///
    /// Returns `None` where a time cannot be told: in mixed storage, the counter was accessed
    /// after it was asked for, and then nothing changes; or as `limit_this` does.
    pub fn limit_this_fetched(
        &mut self,
        fetch: RedisFetch,
        reply: Result<Option<Entity>, LimiterError>,
        config: &BucketConfig,
    ) -> (step: Option<LimitStep>)
        ensures
            match reply {
                Err(error) => {
                    &&& final(self)@ == old(self)@
                    &&& crate::entity::step_view(step) == Some(
                        crate::entity::LimitStepView::Done(Err(error)),
                    )
                },
                Ok(found) => {
                    let found = crate::entity::entity_view(found);
                    if old(self)@.fetch_in_range(fetch@, found) {
                        old(self)@.fetched(fetch@, found).limited(
                            fetch@.key,
                            found,
                            config@,
                            final(self)@,
                            crate::entity::step_view(step),
                        )
                    } else {
                        final(self)@ == old(self)@ && step is None
                    }
                },
            },
    {
        let key = fetch.key.clone();
        match self.get_entity_fetched(fetch, reply) {
            Some(Ok(found)) => self.limit_found(key, found, config),
            Some(Err(error)) => Some(LimitStep::Done(Err(error))),
            None => None,
        }
    }

    /// Goes on with a request once Redis has replied to the storing of its counter: admits it
    /// if the counter was stored.
    pub fn limit_this_stored(headers: LimiterHeaders, reply: Result<(), LimiterError>) -> (result:
        Result<LimiterHeaders, LimiterError>)
        ensures
            result == (match reply {
                Ok(()) => Ok(headers),
                Err(error) => Err(error),
            }),
    {
        match reply {
            Ok(()) => Ok(headers),
            Err(error) => Err(error),
        }
    }

    /// Decides a request by the clock, its counter found or not.
    fn limit_found(&mut self, key: String, found: Option<Entity>, config: &BucketConfig) -> (step:
        Option<LimitStep>)
        ensures
            old(self)@.limited(
                key@,
                crate::entity::entity_view(found),
                config@,
                final(self)@,
                crate::entity::step_view(step),
            ),
    {
        let now: u64 = clock();
        let update_now: u64 = clock();
        let in_range = match &found {
            None => config.cycle_fits(now),
            Some(entity) => {
                if now > entity.expires_at {
                    config.cycle_fits(update_now)
                } else {
                    self.decrease_in_range(entity, update_now)
                }
            },
        };
        let ghost key_view = key@;
        let ghost found_view = crate::entity::entity_view(found);
        let step = if in_range {
            Some(self.limit_found_at(key, found, config, now, update_now))
        } else {
            None
        };
        assert(old(self)@.limited_at(
            key_view,
            found_view,
            config@,
            now,
            update_now,
            self@,
            crate::entity::step_view(step),
        ));
        step
    }

    /// Decides a request whose counter was found or not. `now` is the time at which the counter
    /// is examined, `update_now` the time at which it is changed.
    pub fn limit_found_at(
        &mut self,
        key: String,
        found: Option<Entity>,
        config: &BucketConfig,
        now: u64,
        update_now: u64,
    ) -> (step: LimitStep)
        requires
            old(self)@.limit_in_range(
                crate::entity::entity_view(found),
                config@,
                now as nat,
                update_now as nat,
            ),
        ensures
            (final(self)@, step@) == old(self)@.limit(
                key@,
                crate::entity::entity_view(found),
                config@,
                now as nat,
                update_now as nat,
            ),
    {
        let entity = match found {
            Some(entity) => entity,
            None => return self.create_at(key, config, now),
        };
        let write = if now > entity.expires_at {
            if config.max_requests_per_cycle == 0 {
                return LimitStep::Done(Err(LimiterError::Limited));
            }
            let opened = config.opened(entity.entity_type, update_now);
            self.put(key.clone(), opened, config)
        } else {
            if entity.remaining == 0 {
                return LimitStep::Done(Err(LimiterError::Limited));
            }
            self.decrease_remaining_and_update_at(key.clone(), entity, config, update_now)
        };
        let headers = config.headers(key, &write.entity);
        match write.store {
            Some(store) => LimitStep::Store(store, headers),
            None => LimitStep::Done(Ok(headers)),
        }
    }

    /// Decides the first request on `key`, at `now`.
    fn create_at(&mut self, key: String, config: &BucketConfig, now: u64) -> (step: LimitStep)
        requires
            config@.cycle_fits(now as nat),
        ensures
            (final(self)@, step@) == old(self)@.create(key@, config@, now as nat),
    {
        let memory_exceeded = match self.max_memory_size {
            Some(max) => self.current_memory_usage_mb > max,
            None => false,
        };
        let redis_exceeded = match self.max_redis_size {
            Some(max) => self.current_redis_memory_usage_mb > max,
            None => false,
        };
        match self.storage_type {
            StorageType::Redis => {
                if redis_exceeded {
                    return LimitStep::Done(Err(LimiterError::RedisMemoryExceeded));
                }
            },
            StorageType::InMemory => {
                if memory_exceeded {
                    return LimitStep::Done(Err(LimiterError::MemoryLimitExceeded));
                }
            },
            StorageType::RedisAndMemoryMix => {
                if memory_exceeded && redis_exceeded {
                    return LimitStep::Done(Err(LimiterError::BothMemoryAndRedisMemoryExceeded));
                }
            },
        }
        if config.max_requests_per_cycle == 0 {
            return LimitStep::Done(Err(LimiterError::Limited));
        }
        let entity = config.opened(config.limit_by.clone(), now);
        let headers = config.headers(key.clone(), &entity);
        if self.storage_type != StorageType::Redis && !memory_exceeded {
            memory_insert(&mut self.in_memory, key.clone(), entity.clone());
        }
        if self.storage_type == StorageType::InMemory || redis_exceeded {
            return LimitStep::Done(Ok(headers));
        }
        LimitStep::Store(RedisStore { key, entity, duration: config.cycle_duration }, headers)
    }

    /// Finds the counter of `key`, or says that it is to be read from Redis. With the reply,
    /// `get_entity_fetched` goes on.
    pub fn get_entity(
        &self,
        key: String,
        acceptable_last_accesed_time_to_cache_redis_in_memory: Duration,
    ) -> (lookup: Lookup)
        ensures
            self@.looked_up(
                key@,
                acceptable_last_accesed_time_to_cache_redis_in_memory,
                lookup@,
            ),
    {
        let found = match self.storage_type {
            StorageType::Redis => None,
            StorageType::InMemory => {
                let found = memory_get(&self.in_memory, &key);
                let ghost answer = self@.lookup(
                    key@,
                    acceptable_last_accesed_time_to_cache_redis_in_memory,
                    0u64 as nat,
                );
                return Lookup::Ready(found);
            },
            StorageType::RedisAndMemoryMix => memory_get(&self.in_memory, &key),
        };
        let now: u64 = clock();
        let ghost answer = self@.lookup(
            key@,
            acceptable_last_accesed_time_to_cache_redis_in_memory,
            now as nat,
        );
        let lookup = if found.is_some() {
            Lookup::Ready(found)
        } else {
            Lookup::Fetch(
                RedisFetch {
                    key,
                    now,
                    acceptable: acceptable_last_accesed_time_to_cache_redis_in_memory,
                },
            )
        };
        assert(lookup@ == answer);
        lookup
    }

    /// Goes on with finding a counter once Redis has replied.
    ///
    /// Returns `None`, and changes nothing, where, in mixed storage, the counter was accessed
    /// after it was asked for.
    pub fn get_entity_fetched(
        &mut self,
        fetch: RedisFetch,
        reply: Result<Option<Entity>, LimiterError>,
    ) -> (found: Option<Result<Option<Entity>, LimiterError>>)
        ensures
            match reply {
                Err(error) => found == Some(reply) && final(self)@ == old(self)@,
                Ok(counter) => {
                    let counter = crate::entity::entity_view(counter);
                    if old(self)@.fetch_in_range(fetch@, counter) {
                        found == Some(reply) && final(self)@ == old(self)@.fetched(fetch@, counter)
                    } else {
                        found is None && final(self)@ == old(self)@
                    }
                },
            },
    {
        if self.storage_type == StorageType::RedisAndMemoryMix {
            if let Ok(Some(entity)) = &reply {
                if entity.last_accessed_at > fetch.now {
                    return None;
                }
                let accessed_lately = fetch.now - entity.last_accessed_at < millis_of(
                    &fetch.acceptable,
                );
                if fetch.now < entity.expires_at && accessed_lately {
                    memory_insert(&mut self.in_memory, fetch.key, entity.clone());
                }
            }
        }
        Some(reply)
    }

    /// Refills the counter of `key` for a new cycle.
    ///
    /// Returns `None`, and changes nothing, where the cycle would end beyond what a timestamp
    /// can hold.
    pub fn reset_entity(
        &mut self,
        key: String,
        entity_type: LimitEntityType,
        config: &BucketConfig,
    ) -> (write: Option<EntityWrite>)
        ensures
            exists|now: u64|
                crate::time::shown(now) && now <= crate::time::MAX_TIMESTAMP
                    && if #[trigger] config@.cycle_fits(now as nat) {
                    (final(self)@, crate::entity::write_view(write)) == ({
                        let (after, write) = old(self)@.reset(
                            key@,
                            entity_type@,
                            config@,
                            now as nat,
                        );
                        (after, Some(write))
                    })
                } else {
                    final(self)@ == old(self)@ && write is None
                },
    {
        let now: u64 = clock();
        let fits = config.cycle_fits(now);
        assert(fits == config@.cycle_fits(now as nat));
        if fits {
            Some(self.reset_entity_at(key, entity_type, config, now))
        } else {
            None
        }
    }

    /// Refills the counter of `key` for a new cycle, at `now`.
    pub fn reset_entity_at(
        &mut self,
        key: String,
        entity_type: LimitEntityType,
        config: &BucketConfig,
        now: u64,
    ) -> (write: EntityWrite)
        requires
            config@.cycle_fits(now as nat),
        ensures
            (final(self)@, write@) == old(self)@.reset(key@, entity_type@, config@, now as nat),
    {
        let entity = config.fresh(entity_type, now);
        self.put(key, entity, config)
    }

    /// Writes a counter wherever counters are kept.
    fn put(&mut self, key: String, entity: Entity, config: &BucketConfig) -> (write: EntityWrite)
        ensures
            (final(self)@, write@) == old(self)@.put(key@, entity@, config@),
    {
        let store = RedisStore {
            key: key.clone(),
            entity: entity.clone(),
            duration: config.cycle_duration,
        };
        match self.storage_type {
            StorageType::Redis => EntityWrite { entity, store: Some(store) },
            StorageType::InMemory => {
                memory_insert(&mut self.in_memory, key, entity.clone());
                EntityWrite { entity, store: None }
            },
            StorageType::RedisAndMemoryMix => {
                memory_insert(&mut self.in_memory, key, entity.clone());
                EntityWrite { entity, store: Some(store) }
            },
        }
    }

    /// Charges one request to the counter of `key`.
    ///
    /// Returns `None`, and changes nothing, where, in mixed storage, the clock shows a time
    /// before the last access.
    pub fn decrease_remaining_and_update(
        &mut self,
        key: String,
        entity: Entity,
        config: &BucketConfig,
    ) -> (write: Option<EntityWrite>)
        ensures
            exists|now: u64|
                crate::time::shown(now) && now <= crate::time::MAX_TIMESTAMP
                    && if #[trigger] old(self)@.decrease_in_range(
                    entity@,
                    now as nat,
                ) {
                    (final(self)@, crate::entity::write_view(write)) == ({
                        let (after, write) = old(self)@.decrease(
                            key@,
                            entity@,
                            config@,
                            now as nat,
                        );
                        (after, Some(write))
                    })
                } else {
                    final(self)@ == old(self)@ && write is None
                },
    {
        let now: u64 = clock();
        let in_range = self.decrease_in_range(&entity, now);
        assert(in_range == old(self)@.decrease_in_range(entity@, now as nat));
        if in_range {
            Some(self.decrease_remaining_and_update_at(key, entity, config, now))
        } else {
            None
        }
    }

    /// Returns whether the age of `entity` can be told at `now`, where it is asked.
    pub fn decrease_in_range(&self, entity: &Entity, now: u64) -> (in_range: bool)
        ensures
            in_range == self@.decrease_in_range(entity@, now as nat),
    {
        self.storage_type != StorageType::RedisAndMemoryMix || entity.remaining == 0
            || entity.last_accessed_at <= now
    }

    /// Charges one request to the counter of `key` at `now`.
    pub fn decrease_remaining_and_update_at(
        &mut self,
        key: String,
        entity: Entity,
        config: &BucketConfig,
        now: u64,
    ) -> (write: EntityWrite)
        requires
            old(self)@.decrease_in_range(entity@, now as nat),
        ensures
            (final(self)@, write@) == old(self)@.decrease(key@, entity@, config@, now as nat),
    {
        if entity.remaining == 0 {
            return EntityWrite { entity, store: None };
        }
        let acceptable: u64 = millis_of(
            &self.acceptable_last_accesed_time_to_cache_redis_in_memory,
        );
        let leaves_memory = self.storage_type == StorageType::RedisAndMemoryMix && now
            - entity.last_accessed_at > acceptable;
        let mut changed = entity;
        changed.remaining -= 1;
        changed.last_accessed_at = now;
        if leaves_memory {
            memory_remove(&mut self.in_memory, &key);
            let store = RedisStore { key, entity: changed.clone(), duration: config.cycle_duration };
            return EntityWrite { entity: changed, store: Some(store) };
        }
        self.put(key, changed, config)
    }
}

} // verus!
