//! The state of a limiter as a mathematical value, and what each operation makes of it.

use crate::entity::{
    BucketConfigView, EntityView, EntityWriteView, LimitEntityTypeView, LimitStepView, LookupView,
    RedisFetchView, RedisStoreView,
};
use crate::errors::LimiterError;
use crate::storage::StorageType;
use core::time::Duration;
use vstd::prelude::*;

verus! {

/// The state of a limiter. `C` is the type of the Redis connection.
#[verifier::ext_equal]
pub struct LimiterView<C> {
    pub storage_type: StorageType,
    pub redis_conn: Option<C>,
    /// The counters that are kept in memory, by key.
    pub memory: Map<Seq<char>, EntityView>,
    pub max_memory_size: Option<u64>,
    pub max_redis_size: Option<u64>,
    pub acceptable: Duration,
    pub current_redis_memory_usage_mb: u64,
    pub current_memory_usage_mb: u64,
    /// How often memory is checked, once that has been started.
    pub memory_check_interval: Option<Duration>,
}

impl<C> LimiterView<C> {
    /// The limiter with other counters in memory.
    pub open spec fn with_memory(self, memory: Map<Seq<char>, EntityView>) -> Self {
        LimiterView { memory, ..self }
    }

    /// Whether the counters in memory take more than they may: `max_memory_size` limits what the
    /// last check found them to take.
    pub open spec fn memory_exceeded(self) -> bool {
        self.max_memory_size matches Some(max) && self.current_memory_usage_mb > max
    }

    /// Whether Redis takes more memory than it may: `max_redis_size` limits what Redis reported
    /// at the last check.
    pub open spec fn redis_exceeded(self) -> bool {
        self.max_redis_size matches Some(max) && self.current_redis_memory_usage_mb > max
    }

    /// A lookup of the counter of `key` by the clock. A counter that is to be read from Redis
    /// bears the time that the clock showed.
    pub open spec fn looked_up(
        self,
        key: Seq<char>,
        acceptable: Duration,
        lookup: LookupView,
    ) -> bool {
        exists|now: u64|
            {
                &&& now <= crate::time::MAX_TIMESTAMP
                &&& lookup is Fetch ==> crate::time::shown(now)
                &&& lookup == #[trigger] self.lookup(key, acceptable, now as nat)
            }
    }

    /// Where the counter of `key` stands, at `now`.
    pub open spec fn lookup(self, key: Seq<char>, acceptable: Duration, now: nat) -> LookupView {
        let fetch = RedisFetchView { key, now, acceptable };
        match self.storage_type {
            StorageType::Redis => LookupView::Fetch(fetch),
            StorageType::InMemory => LookupView::Ready(self.memory.get(key)),
            StorageType::RedisAndMemoryMix => if self.memory.contains_key(key) {
                LookupView::Ready(Some(self.memory[key]))
            } else {
                LookupView::Fetch(fetch)
            },
        }
    }

    /// Whether the age of a counter that came from Redis can be told: it was last accessed no
    /// later than it was asked for.
    pub open spec fn fetch_in_range(self, fetch: RedisFetchView, found: Option<EntityView>) -> bool {
        self.storage_type is RedisAndMemoryMix ==> (found matches Some(entity)
            ==> entity.last_accessed_at <= fetch.now)
    }

    /// The limiter once a counter has come from Redis. In mixed storage a counter that was
    /// accessed lately and has not expired is kept in memory.
    pub open spec fn fetched(self, fetch: RedisFetchView, found: Option<EntityView>) -> Self {
        match (self.storage_type, found) {
            (StorageType::RedisAndMemoryMix, Some(entity)) => if fetch.now
                - entity.last_accessed_at < crate::time::timestamp_millis(fetch.acceptable)
                && fetch.now < entity.expires_at {
                self.with_memory(self.memory.insert(fetch.key, entity))
            } else {
                self
            },
            _ => self,
        }
    }

    /// Writing a counter wherever counters are kept: the limiter after it, and the counter.
    pub open spec fn put(
        self,
        key: Seq<char>,
        entity: EntityView,
        config: BucketConfigView,
    ) -> (Self, EntityWriteView) {
        let store = RedisStoreView { key, entity, duration: config.cycle_duration };
        match self.storage_type {
            StorageType::Redis => (self, EntityWriteView { entity, store: Some(store) }),
            StorageType::InMemory => (
                self.with_memory(self.memory.insert(key, entity)),
                EntityWriteView { entity, store: None },
            ),
            StorageType::RedisAndMemoryMix => (
                self.with_memory(self.memory.insert(key, entity)),
                EntityWriteView { entity, store: Some(store) },
            ),
        }
    }

    /// The refilling of the counter of `key` at `now`, for a new cycle: the limiter after it,
    /// and the new counter.
    pub open spec fn reset(
        self,
        key: Seq<char>,
        entity_type: LimitEntityTypeView,
        config: BucketConfigView,
        now: nat,
    ) -> (Self, EntityWriteView) {
        self.put(key, config.fresh(entity_type, now), config)
    }

    /// Whether the age of `entity` can be told at `now`, where it is asked.
    pub open spec fn decrease_in_range(self, entity: EntityView, now: nat) -> bool {
        self.storage_type is RedisAndMemoryMix && entity.remaining > 0 ==> entity.last_accessed_at
            <= now
    }

    /// In mixed storage, whether `entity` has gone so long without access at `now` that it is
    /// no longer kept in memory.
    pub open spec fn little_demanded(self, entity: EntityView, now: nat) -> bool {
        now - entity.last_accessed_at > crate::time::timestamp_millis(self.acceptable)
    }

    /// One request on the counter of `key` at `now`: the limiter after it, and the counter. The
    /// counter is charged and counts as accessed; one that has nothing left stays as it is. In
    /// mixed storage a counter that is little demanded leaves memory.
    pub open spec fn decrease(
        self,
        key: Seq<char>,
        entity: EntityView,
        config: BucketConfigView,
        now: nat,
    ) -> (Self, EntityWriteView) {
        let changed = entity.charged().accessed(now);
        let (kept, write) = self.put(key, changed, config);
        if entity.remaining == 0 {
            (self, EntityWriteView { entity, store: None })
        } else if self.storage_type is RedisAndMemoryMix && self.little_demanded(entity, now) {
            (self.with_memory(self.memory.remove(key)), write)
        } else {
            (kept, write)
        }
    }

    /// Whether no storage that would keep a new counter has room for one.
    pub open spec fn is_full(self) -> bool {
        match self.storage_type {
            StorageType::Redis => self.redis_exceeded(),
            StorageType::InMemory => self.memory_exceeded(),
            StorageType::RedisAndMemoryMix => self.memory_exceeded() && self.redis_exceeded(),
        }
    }

    /// The error that says that no storage has room for a new counter.
    pub open spec fn full_error(self) -> LimiterError {
        match self.storage_type {
            StorageType::Redis => LimiterError::RedisMemoryExceeded,
            StorageType::InMemory => LimiterError::MemoryLimitExceeded,
            StorageType::RedisAndMemoryMix => LimiterError::BothMemoryAndRedisMemoryExceeded,
        }
    }

    /// The first request on `key`, at `now`: the limiter after it, and what becomes of the
    /// request. It needs room for a counter, opens a cycle and is charged to it. The counter is
    /// made wherever there is room for one.
    pub open spec fn create(self, key: Seq<char>, config: BucketConfigView, now: nat) -> (
        Self,
        LimitStepView,
    ) {
        let entity = config.opened(config.limit_by, now);
        let headers = config.headers(key, entity);
        let store = RedisStoreView { key, entity, duration: config.cycle_duration };
        if self.is_full() {
            (self, LimitStepView::Done(Err(self.full_error())))
        } else if config.max_requests_per_cycle == 0 {
            (self, LimitStepView::Done(Err(LimiterError::Limited)))
        } else {
            (
                if self.storage_type is Redis || self.memory_exceeded() {
                    self
                } else {
                    self.with_memory(self.memory.insert(key, entity))
                },
                if self.storage_type is InMemory || self.redis_exceeded() {
                    LimitStepView::Done(Ok(headers))
                } else {
                    LimitStepView::Store(store, headers)
                },
            )
        }
    }

    /// Whether the times that limiting a request needs can be told. `now` is the time at which
    /// the counter is examined, `update_now` the time at which it is changed.
    pub open spec fn limit_in_range(
        self,
        found: Option<EntityView>,
        config: BucketConfigView,
        now: nat,
        update_now: nat,
    ) -> bool {
        match found {
            None => config.cycle_fits(now),
            Some(entity) => if now > entity.expires_at {
                config.cycle_fits(update_now)
            } else {
                self.decrease_in_range(entity, update_now)
            },
        }
    }

    /// One request on `key`, whose counter was found or not: the limiter after it, and what
    /// becomes of the request. Every admitted request is charged, also the one that opens a
    /// cycle. `now` is the time at which the counter is examined, `update_now` the time at which
    /// it is changed.
    pub open spec fn limit(
        self,
        key: Seq<char>,
        found: Option<EntityView>,
        config: BucketConfigView,
        now: nat,
        update_now: nat,
    ) -> (Self, LimitStepView) {
        match found {
            None => self.create(key, config, now),
            Some(entity) => if now > entity.expires_at {
                if config.max_requests_per_cycle == 0 {
                    (self, LimitStepView::Done(Err(LimiterError::Limited)))
                } else {
                    let opened = config.opened(entity.entity_type, update_now);
                    let (after, write) = self.put(key, opened, config);
                    (after, admitted(key, config, write))
                }
            } else if entity.remaining == 0 {
                (self, LimitStepView::Done(Err(LimiterError::Limited)))
            } else {
                let (after, write) = self.decrease(key, entity, config, update_now);
                (after, admitted(key, config, write))
            },
        }
    }

    /// The start of a request on `key`, by the clock: what is known of the limiter after it, and
    /// of the step. The counter is to be read from Redis, or the request is limited at once.
    pub open spec fn started(
        self,
        key: Seq<char>,
        config: BucketConfigView,
        after: Self,
        step: Option<LimitStepView>,
    ) -> bool {
        exists|lookup: LookupView| #[trigger]
            self.looked_up(key, self.acceptable, lookup) && match lookup {
                LookupView::Fetch(fetch) => after == self && step == Some(
                    LimitStepView::Fetch(fetch),
                ),
                LookupView::Ready(found) => self.limited(key, found, config, after, step),
            }
    }

    /// One request on `key` at some times that the clock showed: what is known of the
    /// limiter after it, and of the step. There is no step where the times could not be told.
    pub open spec fn limited(
        self,
        key: Seq<char>,
        found: Option<EntityView>,
        config: BucketConfigView,
        after: Self,
        step: Option<LimitStepView>,
    ) -> bool {
        exists|now: u64, update_now: u64| #[trigger]
            self.limited_at(key, found, config, now, update_now, after, step)
    }

    /// One request on `key` at the given times.
    pub open spec fn limited_at(
        self,
        key: Seq<char>,
        found: Option<EntityView>,
        config: BucketConfigView,
        now: u64,
        update_now: u64,
        after: Self,
        step: Option<LimitStepView>,
    ) -> bool {
        &&& crate::time::shown(now) && now <= crate::time::MAX_TIMESTAMP
        &&& crate::time::shown(update_now) && update_now <= crate::time::MAX_TIMESTAMP
        &&& if self.limit_in_range(found, config, now as nat, update_now as nat) {
            let (limiter, taken) = self.limit(key, found, config, now as nat, update_now as nat);
            after == limiter && step == Some(taken)
        } else {
            after == self && step is None
        }
    }
}

/// What becomes of a request whose counter admitted it: it waits for Redis where the counter
/// is still to be stored there.
pub open spec fn admitted(
    key: Seq<char>,
    config: BucketConfigView,
    write: EntityWriteView,
) -> LimitStepView {
    let headers = config.headers(key, write.entity);
    match write.store {
        Some(store) => LimitStepView::Store(store, headers),
        None => LimitStepView::Done(Ok(headers)),
    }
}

} // verus!
