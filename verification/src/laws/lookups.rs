//! Where a counter is looked for, and what becomes of one that comes from Redis.

use crate::entity::{
    BucketConfigView, EntityView, LimitStepView, LookupView, RedisFetchView,
};
use crate::model::LimiterView;
use core::time::Duration;
use vstd::prelude::*;

verus! {

/// A lookup of a key asks Redis for exactly that key, and hands on what it was given. It asks
/// Redis always in Redis storage, never in in-memory storage, and in mixed storage exactly if
/// memory has no counter of the key. Where it does not ask, it comes to what memory has.
pub proof fn lookup_asks_for_the_key<C>(
    limiter: LimiterView<C>,
    key: Seq<char>,
    acceptable: Duration,
    now: nat,
)
    ensures
        match limiter.lookup(key, acceptable, now) {
            LookupView::Fetch(fetch) => {
                &&& fetch.key == key
                &&& fetch.now == now
                &&& fetch.acceptable == acceptable
                &&& limiter.storage_type !is InMemory
                &&& limiter.storage_type is RedisAndMemoryMix ==> !limiter.memory.contains_key(key)
            },
            LookupView::Ready(Some(entity)) => {
                &&& limiter.storage_type !is Redis
                &&& limiter.memory.contains_key(key)
                &&& limiter.memory[key] == entity
            },
            LookupView::Ready(None) => {
                &&& limiter.storage_type is InMemory
                &&& !limiter.memory.contains_key(key)
            },
        },
{
}

/// Two keys that differ are never asked for under one name.
pub proof fn lookups_keep_keys_apart<C>(
    limiter: LimiterView<C>,
    one: Seq<char>,
    other: Seq<char>,
    acceptable: Duration,
    now: nat,
    later: nat,
)
    requires
        limiter.lookup(one, acceptable, now) is Fetch,
        limiter.lookup(other, acceptable, later) is Fetch,
        limiter.lookup(one, acceptable, now)->Fetch_0.key == limiter.lookup(
            other,
            acceptable,
            later,
        )->Fetch_0.key,
    ensures
        one == other,
{
    lookup_asks_for_the_key(limiter, one, acceptable, now);
    lookup_asks_for_the_key(limiter, other, acceptable, later);
}

/// A lookup by the clock bears the time that the clock showed where it asks Redis.
pub proof fn lookup_bears_the_time<C>(
    limiter: LimiterView<C>,
    key: Seq<char>,
    acceptable: Duration,
    lookup: LookupView,
)
    requires
        limiter.looked_up(key, acceptable, lookup),
    ensures
        match lookup {
            LookupView::Fetch(fetch) => {
                &&& fetch.key == key
                &&& fetch.acceptable == acceptable
                &&& exists|now: u64| #[trigger] crate::time::shown(now) && fetch.now == now
                &&& limiter.storage_type is Redis || (limiter.storage_type is RedisAndMemoryMix
                    && !limiter.memory.contains_key(key))
            },
            LookupView::Ready(found) => {
                &&& limiter.storage_type is InMemory || (limiter.storage_type is RedisAndMemoryMix
                    && limiter.memory.contains_key(key))
                &&& found is Some <==> limiter.memory.contains_key(key)
                &&& found matches Some(entity) ==> limiter.memory[key] == entity
            },
        },
{
    let now = choose|now: u64|
        {
            &&& now <= crate::time::MAX_TIMESTAMP
            &&& lookup is Fetch ==> crate::time::shown(now)
            &&& lookup == #[trigger] limiter.lookup(key, acceptable, now as nat)
        };
    lookup_asks_for_the_key(limiter, key, acceptable, now as nat);
}

/// A request first asks Redis for its own key, where the counter is not at hand, and changes
/// nothing by that. Where the counter is at hand, or known to be missing, the request is decided
/// at two times that the clock showed.
pub proof fn request_starts_at_its_counter<C>(
    limiter: LimiterView<C>,
    key: Seq<char>,
    config: BucketConfigView,
    after: LimiterView<C>,
    step: Option<LimitStepView>,
)
    requires
        limiter.started(key, config, after, step),
    ensures
        ({
            let asks = limiter.storage_type is Redis || (limiter.storage_type is RedisAndMemoryMix
                && !limiter.memory.contains_key(key));
            let found = if limiter.memory.contains_key(key) {
                Some(limiter.memory[key])
            } else {
                None
            };
            if asks {
                &&& after == limiter
                &&& step matches Some(LimitStepView::Fetch(fetch)) && fetch.key == key
                    && fetch.acceptable == limiter.acceptable && (exists|now: u64| #[trigger]
                    crate::time::shown(now) && fetch.now == now)
            } else {
                limiter.limited(key, found, config, after, step)
            }
        }),
{
    let lookup = choose|lookup: LookupView| #[trigger]
        limiter.looked_up(key, limiter.acceptable, lookup) && match lookup {
            LookupView::Fetch(fetch) => after == limiter && step == Some(
                LimitStepView::Fetch(fetch),
            ),
            LookupView::Ready(found) => limiter.limited(key, found, config, after, step),
        };
    lookup_bears_the_time(limiter, key, limiter.acceptable, lookup);
    assert(limiter.memory.get(key) == if limiter.memory.contains_key(key) {
        Some(limiter.memory[key])
    } else {
        None
    });
}

/// A counter that comes from Redis is put into memory exactly in mixed storage, where the cycle
/// has not ended and the last access lies less than the acceptable time back. Nothing else
/// changes.
pub proof fn fetched_counter_is_put_by_where_recent<C>(
    limiter: LimiterView<C>,
    fetch: RedisFetchView,
    found: Option<EntityView>,
)
    ensures
        ({
            let after = limiter.fetched(fetch, found);
            let recent = limiter.storage_type is RedisAndMemoryMix && (found matches Some(entity)
                && fetch.now < entity.expires_at && fetch.now < entity.last_accessed_at
                + crate::time::timestamp_millis(fetch.acceptable));
            &&& crate::laws::cycles::settings_agree(limiter, after)
            &&& recent ==> after.memory == limiter.memory.insert(fetch.key, found->0)
            &&& !recent ==> after.memory == limiter.memory
        }),
{
}

/// A reply of Redis can be used exactly if the storage is not mixed, there is no counter, or it
/// was not accessed later than it was asked for.
pub proof fn replies_are_used_unless_time_fails<C>(
    limiter: LimiterView<C>,
    fetch: RedisFetchView,
    found: Option<EntityView>,
)
    ensures
        limiter.fetch_in_range(fetch, found) <==> !(limiter.storage_type is RedisAndMemoryMix && (
        found matches Some(entity) && entity.last_accessed_at > fetch.now)),
{
}

/// A key tells its bucket, the way in which requests are told apart, and the entity: these three
/// with a colon between them. A bucket that limits globally has one key.
pub proof fn keys_are_made_of_their_parts(config: BucketConfigView, entity: Seq<char>)
    ensures
        ({
            let key = config.key(entity);
            let rest = key.skip(config.name.len() as int + 1);
            &&& key.len() > config.name.len()
            &&& key.take(config.name.len() as int) == config.name
            &&& key[config.name.len() as int] == ':'
            &&& match config.limit_by {
                crate::entity::LimitEntityTypeView::Global => rest == "global:_"@,
                crate::entity::LimitEntityTypeView::IP => rest == "ip:"@ + entity,
                crate::entity::LimitEntityTypeView::ProxiedIP => rest == "proxied_ip:"@ + entity,
                crate::entity::LimitEntityTypeView::ID => rest == "id:"@ + entity,
                crate::entity::LimitEntityTypeView::Custom(name) => {
                    &&& rest.len() == name.len() + 1 + entity.len()
                    &&& rest.take(name.len() as int) == name
                    &&& rest[name.len() as int] == ':'
                    &&& rest.skip(name.len() as int + 1) == entity
                },
            }
        }),
{
    reveal_strlit(":");
    reveal_strlit("_");
    reveal_strlit("global");
    reveal_strlit("ip");
    reveal_strlit("proxied_ip");
    reveal_strlit("id");
    reveal_strlit("global:_");
    reveal_strlit("ip:");
    reveal_strlit("proxied_ip:");
    reveal_strlit("id:");
    let key = config.key(entity);
    let rest = key.skip(config.name.len() as int + 1);
    assert(key.take(config.name.len() as int) == config.name);
    match config.limit_by {
        crate::entity::LimitEntityTypeView::Global => {
            assert(rest =~= "global:_"@);
        },
        crate::entity::LimitEntityTypeView::IP => {
            assert(rest =~= "ip:"@ + entity);
        },
        crate::entity::LimitEntityTypeView::ProxiedIP => {
            assert(rest =~= "proxied_ip:"@ + entity);
        },
        crate::entity::LimitEntityTypeView::ID => {
            assert(rest =~= "id:"@ + entity);
        },
        crate::entity::LimitEntityTypeView::Custom(name) => {
            assert(rest.take(name.len() as int) =~= name);
            assert(rest.skip(name.len() as int + 1) =~= entity);
        },
    }
}

} // verus!
