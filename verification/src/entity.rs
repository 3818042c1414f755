//! What is limited, by what rule, and how much of it is left.

use crate::errors::LimiterError;
use crate::time::millis_of;
use core::time::Duration;
use vstd::prelude::*;

verus! {

/// By what requests are told apart.
#[derive(Debug, PartialEq, Eq, PartialOrd, Ord)]
pub enum LimitEntityType {
    /// Not at all: all requests share one counter.
    Global,
    /// By the address of the peer.
    IP,
    /// By the address of the client, for services that are behind a proxy.
    ProxiedIP,
    ID,
    Custom(String),
}

pub enum LimitEntityTypeView {
    Global,
    IP,
    ProxiedIP,
    ID,
    Custom(Seq<char>),
}

impl View for LimitEntityType {
    type V = LimitEntityTypeView;

    open spec fn view(&self) -> LimitEntityTypeView {
        match self {
            LimitEntityType::Global => LimitEntityTypeView::Global,
            LimitEntityType::IP => LimitEntityTypeView::IP,
            LimitEntityType::ProxiedIP => LimitEntityTypeView::ProxiedIP,
            LimitEntityType::ID => LimitEntityTypeView::ID,
            LimitEntityType::Custom(name) => LimitEntityTypeView::Custom(name@),
        }
    }
}

impl LimitEntityTypeView {
    /// The word that stands for the type in a key.
    pub open spec fn word(self) -> Seq<char> {
        match self {
            LimitEntityTypeView::Global => "global"@,
            LimitEntityTypeView::IP => "ip"@,
            LimitEntityTypeView::ProxiedIP => "proxied_ip"@,
            LimitEntityTypeView::ID => "id"@,
            LimitEntityTypeView::Custom(name) => name,
        }
    }
}

impl Clone for LimitEntityType {
    fn clone(&self) -> (copy: Self)
        ensures
            copy@ == self@,
    {
        match self {
            LimitEntityType::Global => LimitEntityType::Global,
            LimitEntityType::IP => LimitEntityType::IP,
            LimitEntityType::ProxiedIP => LimitEntityType::ProxiedIP,
            LimitEntityType::ID => LimitEntityType::ID,
            LimitEntityType::Custom(name) => LimitEntityType::Custom(name.clone()),
        }
    }
}

/// The rule that a bucket limits requests by.
#[derive(Debug)]
pub struct BucketConfig {
    pub name: String,
    pub limit_by: LimitEntityType,
    pub max_requests_per_cycle: u64,
    pub cycle_duration: Duration,
}

pub struct BucketConfigView {
    pub name: Seq<char>,
    pub limit_by: LimitEntityTypeView,
    pub max_requests_per_cycle: nat,
    pub cycle_duration: Duration,
}

impl View for BucketConfig {
    type V = BucketConfigView;

    open spec fn view(&self) -> BucketConfigView {
        BucketConfigView {
            name: self.name@,
            limit_by: self.limit_by@,
            max_requests_per_cycle: self.max_requests_per_cycle as nat,
            cycle_duration: self.cycle_duration,
        }
    }
}

impl Clone for BucketConfig {
    fn clone(&self) -> (copy: Self)
        ensures
            copy@ == self@,
    {
        BucketConfig {
            name: self.name.clone(),
            limit_by: self.limit_by.clone(),
            max_requests_per_cycle: self.max_requests_per_cycle,
            cycle_duration: self.cycle_duration,
        }
    }
}

impl BucketConfigView {
    /// The length of a cycle in milliseconds.
    pub open spec fn cycle_millis(self) -> nat {
        crate::time::timestamp_millis(self.cycle_duration)
    }

    /// Whether a cycle that starts at `now` ends at a time that a timestamp can hold.
    pub open spec fn cycle_fits(self, now: nat) -> bool {
        now + self.cycle_millis() <= u64::MAX
    }

    /// The key of the counter of an entity in this bucket.
    pub open spec fn key(self, entity_key: Seq<char>) -> Seq<char> {
        let entity = if self.limit_by is Global {
            "_"@
        } else {
            entity_key
        };
        self.name + ":"@ + self.limit_by.word() + ":"@ + entity
    }

    /// The counter of an entity of the given type at the start of a cycle, at `now`.
    pub open spec fn fresh(self, entity_type: LimitEntityTypeView, now: nat) -> EntityView {
        EntityView {
            entity_type,
            initial_supply: self.max_requests_per_cycle,
            remaining: self.max_requests_per_cycle,
            created_at: now,
            expires_at: now + self.cycle_millis(),
            last_accessed_at: now,
        }
    }

    /// The counter of an entity of the given type behind the request that opens a cycle at
    /// `now`.
    pub open spec fn opened(self, entity_type: LimitEntityTypeView, now: nat) -> EntityView {
        self.fresh(entity_type, now).charged()
    }

    /// What a request that `entity` admitted under `key` is told.
    pub open spec fn headers(self, key: Seq<char>, entity: EntityView) -> LimiterHeadersView {
        LimiterHeadersView {
            key,
            bucket: self.name,
            limit: entity.initial_supply,
            remaining: entity.remaining,
            reset: entity.expires_at,
        }
    }
}

impl BucketConfig {
    /// Returns the key of the counter of an entity in this bucket.
    pub fn key(&self, entity_key: String) -> (key: String)
        ensures
            key@ == self@.key(entity_key@),
    {
        let word: &str = match &self.limit_by {
            LimitEntityType::Global => "global",
            LimitEntityType::IP => "ip",
            LimitEntityType::ProxiedIP => "proxied_ip",
            LimitEntityType::ID => "id",
            LimitEntityType::Custom(name) => name.as_str(),
        };
        let entity: &str = match &self.limit_by {
            LimitEntityType::Global => "_",
            _ => entity_key.as_str(),
        };
        let mut key = self.name.clone();
        key.append(":");
        key.append(word);
        key.append(":");
        key.append(entity);
        key
    }

    /// Returns the counter of an entity of the given type at the start of a cycle.
    pub fn fresh(&self, entity_type: LimitEntityType, now: u64) -> (entity: Entity)
        requires
            self@.cycle_fits(now as nat),
        ensures
            entity@ == self@.fresh(entity_type@, now as nat),
    {
        let expires_at: u64 = now + millis_of(&self.cycle_duration);
        Entity {
            entity_type,
            initial_supply: self.max_requests_per_cycle,
            remaining: self.max_requests_per_cycle,
            created_at: now,
            expires_at,
            last_accessed_at: now,
        }
    }

    /// Returns the counter of an entity of the given type behind the request that opens a cycle.
    pub fn opened(&self, entity_type: LimitEntityType, now: u64) -> (entity: Entity)
        requires
            self@.cycle_fits(now as nat),
            self@.max_requests_per_cycle > 0,
        ensures
            entity@ == self@.opened(entity_type@, now as nat),
    {
        let mut entity = self.fresh(entity_type, now);
        entity.remaining -= 1;
        entity
    }

    /// Returns whether a cycle that starts at `now` ends at a time that a timestamp can hold.
    pub fn cycle_fits(&self, now: u64) -> (fits: bool)
        ensures
            fits == self@.cycle_fits(now as nat),
    {
        now <= u64::MAX - millis_of(&self.cycle_duration)
    }

    /// Returns what a request that `entity` admitted under `key` is told.
    pub fn headers(&self, key: String, entity: &Entity) -> (headers: LimiterHeaders)
        ensures
            headers@ == self@.headers(key@, entity@),
    {
        LimiterHeaders {
            key,
            bucket: self.name.clone(),
            limit: entity.initial_supply,
            remaining: entity.remaining,
            reset: entity.expires_at,
        }
    }
}

/// What an admitted request is told.
#[derive(Debug)]
pub struct LimiterHeaders {
    pub key: String,
    pub bucket: String,
    pub limit: u64,
    pub remaining: u64,
    /// A Unix timestamp in milliseconds.
    pub reset: u64,
}

pub struct LimiterHeadersView {
    pub key: Seq<char>,
    pub bucket: Seq<char>,
    pub limit: nat,
    pub remaining: nat,
    pub reset: nat,
}

impl View for LimiterHeaders {
    type V = LimiterHeadersView;

    open spec fn view(&self) -> LimiterHeadersView {
        LimiterHeadersView {
            key: self.key@,
            bucket: self.bucket@,
            limit: self.limit as nat,
            remaining: self.remaining as nat,
            reset: self.reset as nat,
        }
    }
}

impl Clone for LimiterHeaders {
    fn clone(&self) -> (copy: Self)
        ensures
            copy@ == self@,
    {
        LimiterHeaders {
            key: self.key.clone(),
            bucket: self.bucket.clone(),
            limit: self.limit,
            remaining: self.remaining,
            reset: self.reset,
        }
    }
}

/// The counter of one entity in one cycle.
#[derive(Debug, PartialEq, Eq)]
pub struct Entity {
    pub entity_type: LimitEntityType,
    pub initial_supply: u64,
    pub remaining: u64,
    pub created_at: u64,
    pub expires_at: u64,
    pub last_accessed_at: u64,
}

pub struct EntityView {
    pub entity_type: LimitEntityTypeView,
    pub initial_supply: nat,
    pub remaining: nat,
    pub created_at: nat,
    pub expires_at: nat,
    pub last_accessed_at: nat,
}

impl View for Entity {
    type V = EntityView;

    open spec fn view(&self) -> EntityView {
        EntityView {
            entity_type: self.entity_type@,
            initial_supply: self.initial_supply as nat,
            remaining: self.remaining as nat,
            created_at: self.created_at as nat,
            expires_at: self.expires_at as nat,
            last_accessed_at: self.last_accessed_at as nat,
        }
    }
}

impl EntityView {
    /// The counter with one request less.
    pub open spec fn charged(self) -> EntityView {
        EntityView { remaining: (self.remaining - 1) as nat, ..self }
    }

    /// The counter, accessed at `now`.
    pub open spec fn accessed(self, now: nat) -> EntityView {
        EntityView { last_accessed_at: now, ..self }
    }

    /// Whether no more is left than there was at the start of the cycle.
    pub open spec fn within_supply(self) -> bool {
        self.remaining <= self.initial_supply
    }
}

impl Clone for Entity {
    fn clone(&self) -> (copy: Self)
        ensures
            copy@ == self@,
    {
        Entity {
            entity_type: self.entity_type.clone(),
            initial_supply: self.initial_supply,
            remaining: self.remaining,
            created_at: self.created_at,
            expires_at: self.expires_at,
            last_accessed_at: self.last_accessed_at,
        }
    }
}

/// The view of a counter that may be missing.
pub open spec fn entity_view(entity: Option<Entity>) -> Option<EntityView> {
    match entity {
        Some(entity) => Some(entity@),
        None => None,
    }
}

/// A counter to be read from Redis.
#[derive(Debug)]
pub struct RedisFetch {
    pub key: String,
    /// When the counter was missed in memory.
    pub now: u64,
    /// How long ago a counter may have been accessed to be kept in memory.
    pub acceptable: Duration,
}

pub struct RedisFetchView {
    pub key: Seq<char>,
    pub now: nat,
    pub acceptable: Duration,
}

impl View for RedisFetch {
    type V = RedisFetchView;

    open spec fn view(&self) -> RedisFetchView {
        RedisFetchView { key: self.key@, now: self.now as nat, acceptable: self.acceptable }
    }
}

/// A counter to be stored in Redis, to expire after a time.
#[derive(Debug)]
pub struct RedisStore {
    pub key: String,
    pub entity: Entity,
    pub duration: Duration,
}

pub struct RedisStoreView {
    pub key: Seq<char>,
    pub entity: EntityView,
    pub duration: Duration,
}

impl View for RedisStore {
    type V = RedisStoreView;

    open spec fn view(&self) -> RedisStoreView {
        RedisStoreView { key: self.key@, entity: self.entity@, duration: self.duration }
    }
}

/// Where a counter stands: found (or known to be missing), or to be read from Redis first.
#[derive(Debug)]
pub enum Lookup {
    Ready(Option<Entity>),
    Fetch(RedisFetch),
}

pub enum LookupView {
    Ready(Option<EntityView>),
    Fetch(RedisFetchView),
}

impl View for Lookup {
    type V = LookupView;

    open spec fn view(&self) -> LookupView {
        match self {
            Lookup::Ready(entity) => LookupView::Ready(entity_view(*entity)),
            Lookup::Fetch(fetch) => LookupView::Fetch(fetch@),
        }
    }
}

/// A counter that has changed, and what of it is still to be stored in Redis.
#[derive(Debug)]
pub struct EntityWrite {
    pub entity: Entity,
    pub store: Option<RedisStore>,
}

pub struct EntityWriteView {
    pub entity: EntityView,
    pub store: Option<RedisStoreView>,
}

impl View for EntityWrite {
    type V = EntityWriteView;

    open spec fn view(&self) -> EntityWriteView {
        EntityWriteView {
            entity: self.entity@,
            store: match self.store {
                Some(store) => Some(store@),
                None => None,
            },
        }
    }
}

impl EntityWrite {
    /// Returns the changed counter once `reply` says how storing it in Redis went; where
    /// nothing was to be stored, `reply` does not count.
    pub fn finish(self, reply: Result<(), LimiterError>) -> (entity: Result<Entity, LimiterError>)
        ensures
            entity == (match (self.store, reply) {
                (Some(_), Err(error)) => Err(error),
                _ => Ok(self.entity),
            }),
    {
        match (self.store, reply) {
            (Some(_), Err(error)) => Err(error),
            _ => Ok(self.entity),
        }
    }
}

/// The view of a change that may not have been made.
pub open spec fn write_view(write: Option<EntityWrite>) -> Option<EntityWriteView> {
    match write {
        Some(write) => Some(write@),
        None => None,
    }
}

/// How far the limiting of a request has come.
#[derive(Debug)]
pub enum LimitStep {
    /// The request is decided.
    Done(Result<LimiterHeaders, LimiterError>),
    /// The counter is to be read from Redis; the request is decided with the reply.
    Fetch(RedisFetch),
    /// The counter is to be stored in Redis; if that succeeds the request is admitted.
    Store(RedisStore, LimiterHeaders),
}

pub enum LimitStepView {
    Done(Result<LimiterHeadersView, LimiterError>),
    Fetch(RedisFetchView),
    Store(RedisStoreView, LimiterHeadersView),
}

impl View for LimitStep {
    type V = LimitStepView;

    open spec fn view(&self) -> LimitStepView {
        match self {
            LimitStep::Done(Ok(headers)) => LimitStepView::Done(Ok(headers@)),
            LimitStep::Done(Err(error)) => LimitStepView::Done(Err(*error)),
            LimitStep::Fetch(fetch) => LimitStepView::Fetch(fetch@),
            LimitStep::Store(store, headers) => LimitStepView::Store(store@, headers@),
        }
    }
}

/// The view of a step that may not have been taken.
pub open spec fn step_view(step: Option<LimitStep>) -> Option<LimitStepView> {
    match step {
        Some(step) => Some(step@),
        None => None,
    }
}

} // verus!
