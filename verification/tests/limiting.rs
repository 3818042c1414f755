use nervio_limiter::errors::LimiterError;
use nervio_limiter::limiter::{
    BucketConfig, Entity, LimitEntityType, LimitStep, Limiter, LimiterHeaders, Lookup, RedisFetch,
    RedisStore,
};
use nervio_limiter::storage::StorageType;
use std::time::Duration;

fn limiter(storage_type: StorageType) -> Limiter<&'static str> {
    Limiter::new(storage_type, Some("connection"), None, None, Duration::from_secs(10))
}

fn bucket(max: u64) -> BucketConfig {
    BucketConfig {
        name: "my.bucket".to_owned(),
        limit_by: LimitEntityType::IP,
        max_requests_per_cycle: max,
        cycle_duration: Duration::from_secs(60),
    }
}

fn admitted(step: Option<LimitStep>) -> LimiterHeaders {
    match step {
        Some(LimitStep::Done(Ok(headers))) => headers,
        other => panic!("not admitted: {:?}", other),
    }
}

fn refused(step: Option<LimitStep>) -> LimiterError {
    match step {
        Some(LimitStep::Done(Err(error))) => error,
        other => panic!("not refused: {:?}", other),
    }
}

fn to_store(step: LimitStep) -> (RedisStore, LimiterHeaders) {
    match step {
        LimitStep::Store(store, headers) => (store, headers),
        other => panic!("nothing to store: {:?}", other),
    }
}

fn to_fetch(step: Option<LimitStep>) -> RedisFetch {
    match step {
        Some(LimitStep::Fetch(fetch)) => fetch,
        other => panic!("nothing to fetch: {:?}", other),
    }
}

fn ready(lookup: Lookup) -> Option<Entity> {
    match lookup {
        Lookup::Ready(entity) => entity,
        other => panic!("not ready: {:?}", other),
    }
}

fn counter(remaining: u64, expires_at: u64, last_accessed_at: u64) -> Entity {
    Entity {
        entity_type: LimitEntityType::IP,
        initial_supply: 9,
        remaining,
        created_at: 100,
        expires_at,
        last_accessed_at,
    }
}

#[test]
fn first_request_opens_a_cycle() {
    let mut limiter = limiter(StorageType::InMemory);
    let before = std::time::SystemTime::now()
        .duration_since(std::time::UNIX_EPOCH)
        .unwrap()
        .as_millis() as u64;
    let headers = admitted(limiter.limit_this("127.0.0.1".to_owned(), &bucket(120)));
    assert_eq!(headers.key, "my.bucket:ip:127.0.0.1");
    assert_eq!(headers.bucket, "my.bucket");
    assert_eq!(headers.limit, 120);
    assert_eq!(headers.remaining, 119);
    assert!(headers.reset >= before + 60_000);
    assert!(headers.reset < before + 120_000);
}

#[test]
fn in_memory_cycle_admits_the_maximum() {
    let mut limiter = limiter(StorageType::InMemory);
    let config = bucket(3);
    let mut told = Vec::new();
    for _ in 0..3 {
        told.push(admitted(limiter.limit_this("a".to_owned(), &config)).remaining);
    }
    assert_eq!(told, vec![2, 1, 0]);
    for _ in 0..3 {
        let refusal = refused(limiter.limit_this("a".to_owned(), &config));
        assert_eq!(refusal, LimiterError::Limited);
    }
}

#[test]
fn one_request_per_cycle_is_one() {
    let mut limiter = limiter(StorageType::InMemory);
    let mut config = bucket(1);
    config.limit_by = LimitEntityType::Global;
    assert_eq!(admitted(limiter.limit_this("_".to_owned(), &config)).remaining, 0);
    assert_eq!(refused(limiter.limit_this("_".to_owned(), &config)), LimiterError::Limited);
}

#[test]
fn next_cycle_admits_the_maximum_again() {
    let mut limiter = limiter(StorageType::InMemory);
    let config = bucket(3);
    limiter.in_memory.insert("k".to_owned(), counter(8, 1_000, 900));
    let mut told = Vec::new();
    for now in 1_001..1_006u64 {
        let found = ready(limiter.get_entity("k".to_owned(), Duration::from_secs(1)));
        match limiter.limit_found_at("k".to_owned(), found, &config, now, now) {
            LimitStep::Done(Ok(headers)) => told.push((headers.remaining, headers.reset)),
            LimitStep::Done(Err(error)) => assert_eq!(error, LimiterError::Limited),
            other => panic!("{:?}", other),
        }
    }
    assert_eq!(told, vec![(2, 61_001), (1, 61_001), (0, 61_001)]);
}

#[test]
fn a_maximum_of_nothing_admits_nothing() {
    for storage_type in [StorageType::InMemory, StorageType::Redis, StorageType::RedisAndMemoryMix] {
        let mut limiter = limiter(storage_type);
        for found in [None, Some(counter(5, 10, 5)), Some(counter(0, 10, 5))] {
            let step = limiter.limit_found_at("k".to_owned(), found, &bucket(0), 11, 11);
            assert_eq!(refused(Some(step)), LimiterError::Limited);
        }
        assert!(limiter.in_memory.is_empty());
    }
    let mut limiter = limiter(StorageType::InMemory);
    assert_eq!(refused(limiter.limit_this("a".to_owned(), &bucket(0))), LimiterError::Limited);
}

#[test]
fn want_of_room_comes_before_a_maximum_of_nothing() {
    for max in [0, 1] {
        for (storage_type, error) in [
            (StorageType::InMemory, LimiterError::MemoryLimitExceeded),
            (StorageType::Redis, LimiterError::RedisMemoryExceeded),
            (StorageType::RedisAndMemoryMix, LimiterError::BothMemoryAndRedisMemoryExceeded),
        ] {
            let mut limiter = limiter(storage_type);
            limiter.max_memory_size = Some(3);
            limiter.max_redis_size = Some(5);
            limiter.current_memory_usage_mb = 4;
            limiter.current_redis_memory_usage_mb = 6;
            let step = limiter.limit_found_at("k".to_owned(), None, &bucket(max), 1, 1);
            assert_eq!(refused(Some(step)), error);
            assert!(limiter.in_memory.is_empty());
        }
    }
    // One of the two storages has room.
    let mut limiter = limiter(StorageType::RedisAndMemoryMix);
    limiter.max_memory_size = Some(3);
    limiter.current_memory_usage_mb = 4;
    let step = limiter.limit_found_at("k".to_owned(), None, &bucket(0), 1, 1);
    assert_eq!(refused(Some(step)), LimiterError::Limited);
}

#[test]
fn entities_are_counted_apart() {
    let mut limiter = limiter(StorageType::InMemory);
    let config = bucket(1);
    admitted(limiter.limit_this("a".to_owned(), &config));
    assert_eq!(refused(limiter.limit_this("a".to_owned(), &config)), LimiterError::Limited);
    admitted(limiter.limit_this("b".to_owned(), &config));
}

#[test]
fn global_bucket_counts_all_together() {
    let mut limiter = limiter(StorageType::InMemory);
    let mut config = bucket(1);
    config.limit_by = LimitEntityType::Global;
    let headers = admitted(limiter.limit_this("a".to_owned(), &config));
    assert_eq!(headers.key, "my.bucket:global:_");
    assert_eq!(refused(limiter.limit_this("b".to_owned(), &config)), LimiterError::Limited);
}

#[test]
fn keys_of_all_kinds() {
    let mut config = bucket(1);
    let kinds = vec![
        (LimitEntityType::Global, "my.bucket:global:_"),
        (LimitEntityType::IP, "my.bucket:ip:x"),
        (LimitEntityType::ProxiedIP, "my.bucket:proxied_ip:x"),
        (LimitEntityType::ID, "my.bucket:id:x"),
        (LimitEntityType::Custom("org".to_owned()), "my.bucket:org:x"),
    ];
    for (kind, key) in kinds {
        config.limit_by = kind;
        assert_eq!(config.key("x".to_owned()), key);
    }
}

#[test]
fn charging_counts_as_an_access_in_memory() {
    let mut limiter = limiter(StorageType::InMemory);
    let entity = counter(5, 1_000, 200);
    let step = limiter.limit_found_at("k".to_owned(), Some(entity), &bucket(9), 900, 901);
    let headers = admitted(Some(step));
    assert_eq!((headers.limit, headers.remaining, headers.reset), (9, 4, 1_000));
    let kept = ready(limiter.get_entity("k".to_owned(), Duration::from_secs(1)));
    assert_eq!(kept, Some(counter(4, 1_000, 901)));
}

#[test]
fn a_cycle_ends_behind_its_last_instant() {
    let mut limiter = limiter(StorageType::InMemory);
    let step = limiter.limit_found_at("k".to_owned(), Some(counter(0, 1_000, 1)), &bucket(7), 1_000, 1_000);
    assert_eq!(refused(Some(step)), LimiterError::Limited);
    let step = limiter.limit_found_at("k".to_owned(), Some(counter(0, 1_000, 1)), &bucket(7), 1_001, 1_002);
    let headers = admitted(Some(step));
    assert_eq!((headers.limit, headers.remaining, headers.reset), (7, 6, 61_002));
    let kept = ready(limiter.get_entity("k".to_owned(), Duration::from_secs(1))).unwrap();
    assert_eq!((kept.created_at, kept.last_accessed_at, kept.initial_supply), (1_002, 1_002, 7));
}

#[test]
fn reset_keeps_the_type_of_the_counter() {
    let mut limiter = limiter(StorageType::InMemory);
    let write = limiter.reset_entity_at("k".to_owned(), LimitEntityType::ID, &bucket(2), 50);
    assert_eq!(write.entity.entity_type, LimitEntityType::ID);
    assert_eq!(write.entity.expires_at, 60_050);
    assert!(write.store.is_none());
    let write = limiter.reset_entity("k".to_owned(), LimitEntityType::IP, &bucket(2)).unwrap();
    assert_eq!(write.entity.remaining, 2);
    assert_eq!(write.entity.expires_at, write.entity.created_at + 60_000);
}

#[test]
fn a_counter_with_nothing_left_stays() {
    let mut limiter = limiter(StorageType::Redis);
    let write = limiter
        .decrease_remaining_and_update("k".to_owned(), counter(0, 9, 5), &bucket(2))
        .unwrap();
    assert_eq!(write.entity, counter(0, 9, 5));
    assert!(write.store.is_none());
    assert_eq!(write.finish(Err(LimiterError::RedisSetError)).unwrap(), counter(0, 9, 5));
}

#[test]
fn refusal_leaves_the_counter() {
    let mut limiter = limiter(StorageType::InMemory);
    let config = bucket(1);
    admitted(limiter.limit_this("a".to_owned(), &config));
    let key = "my.bucket:ip:a".to_owned();
    let before = ready(limiter.get_entity(key.clone(), Duration::from_secs(1)));
    refused(limiter.limit_this("a".to_owned(), &config));
    let after = ready(limiter.get_entity(key, Duration::from_secs(1)));
    assert_eq!(before, after);
    assert!(before.is_some());
}

#[test]
fn redis_request_goes_through_fetch_and_store() {
    let mut limiter = limiter(StorageType::Redis);
    let config = bucket(2);
    let fetch = to_fetch(limiter.limit_this("a".to_owned(), &config));
    assert_eq!(fetch.key, "my.bucket:ip:a");
    let step = limiter.limit_this_fetched(fetch, Ok(None), &config).unwrap();
    let (store, headers) = to_store(step);
    assert_eq!(store.key, "my.bucket:ip:a");
    assert_eq!(store.duration, Duration::from_secs(60));
    assert_eq!((store.entity.remaining, headers.remaining), (1, 1));
    let told = Limiter::<&str>::limit_this_stored(headers.clone(), Ok(())).unwrap();
    assert_eq!(told.remaining, 1);
    let failed = Limiter::<&str>::limit_this_stored(headers, Err(LimiterError::RedisSetError));
    assert_eq!(failed.unwrap_err(), LimiterError::RedisSetError);

    let fetch = to_fetch(limiter.limit_this("a".to_owned(), &config));
    let step = limiter.limit_this_fetched(fetch, Ok(Some(store.entity)), &config).unwrap();
    let (store, headers) = to_store(step);
    assert_eq!((store.entity.remaining, headers.remaining), (0, 0));

    let fetch = to_fetch(limiter.limit_this("a".to_owned(), &config));
    let step = limiter.limit_this_fetched(fetch, Ok(Some(store.entity)), &config);
    assert_eq!(refused(step), LimiterError::Limited);
    assert!(limiter.in_memory.is_empty());
}

#[test]
fn redis_errors_are_passed_on() {
    let mut limiter = limiter(StorageType::Redis);
    let config = bucket(2);
    for error in [
        LimiterError::NotRedisConfigured,
        LimiterError::RedisGetError,
        LimiterError::DeserializationError,
    ] {
        let fetch = to_fetch(limiter.limit_this("a".to_owned(), &config));
        assert_eq!(refused(limiter.limit_this_fetched(fetch, Err(error), &config)), error);
    }
}

#[test]
fn redis_charging_is_stored_with_the_access() {
    let mut limiter = limiter(StorageType::Redis);
    let write =
        limiter.decrease_remaining_and_update_at("k".to_owned(), counter(3, 9, 5), &bucket(2), 7);
    assert_eq!(write.entity, counter(2, 9, 7));
    let store = write.store.as_ref().unwrap();
    assert_eq!(store.key, "k");
    assert_eq!(store.entity, counter(2, 9, 7));
    assert_eq!(store.duration, Duration::from_secs(60));
    assert_eq!(
        write.finish(Err(LimiterError::SerializationError)).unwrap_err(),
        LimiterError::SerializationError
    );
}

#[test]
fn mixed_storage_keeps_first_counter_in_both() {
    let mut limiter = limiter(StorageType::RedisAndMemoryMix);
    let step = limiter.limit_found_at("k".to_owned(), None, &bucket(4), 1_000, 1_000);
    let (store, headers) = to_store(step);
    assert_eq!((store.entity.remaining, headers.remaining), (3, 3));
    let kept = ready(limiter.get_entity("k".to_owned(), Duration::from_secs(1)));
    assert_eq!(kept, Some(store.entity));
}

#[test]
fn mixed_storage_charges_a_demanded_counter_in_both() {
    let mut limiter = limiter(StorageType::RedisAndMemoryMix);
    let step = limiter.limit_found_at("k".to_owned(), Some(counter(5, 90_000, 1_000)), &bucket(4), 11_000, 11_000);
    let (store, headers) = to_store(step);
    assert_eq!(store.entity, counter(4, 90_000, 11_000));
    assert_eq!(headers.remaining, 4);
    let kept = ready(limiter.get_entity("k".to_owned(), Duration::from_secs(1)));
    assert_eq!(kept, Some(store.entity));
}

#[test]
fn mixed_storage_moves_an_idle_counter_to_redis() {
    let mut limiter = limiter(StorageType::RedisAndMemoryMix);
    limiter.in_memory.insert("k".to_owned(), counter(5, 90_000, 1_000));
    let found = ready(limiter.get_entity("k".to_owned(), Duration::from_secs(1)));
    let step = limiter.limit_found_at("k".to_owned(), found, &bucket(4), 11_001, 11_001);
    let (store, headers) = to_store(step);
    assert_eq!(store.entity, counter(4, 90_000, 11_001));
    assert_eq!(headers.remaining, 4);
    assert!(limiter.in_memory.is_empty());
    assert!(matches!(
        limiter.get_entity("k".to_owned(), Duration::from_secs(1)),
        Lookup::Fetch(_)
    ));
}

#[test]
fn mixed_storage_keeps_a_counter_in_use() {
    let mut limiter = limiter(StorageType::RedisAndMemoryMix);
    let config = bucket(9);
    to_store(limiter.limit_found_at("k".to_owned(), None, &config, 1_000, 1_000));
    // Each request comes within the acceptable time of the one before.
    for (now, left) in [(10_000, 7), (19_000, 6), (28_000, 5)] {
        let found = ready(limiter.get_entity("k".to_owned(), Duration::from_secs(1)));
        let (store, headers) = to_store(limiter.limit_found_at("k".to_owned(), found, &config, now, now));
        assert_eq!((store.entity.last_accessed_at, headers.remaining), (now, left));
        assert!(limiter.in_memory.contains_key("k"));
    }
}

#[test]
fn mixed_storage_cycle_admits_the_maximum() {
    let mut limiter = limiter(StorageType::RedisAndMemoryMix);
    let config = bucket(3);
    let mut stored = None;
    let mut told = Vec::new();
    // Each request comes longer than the acceptable time behind the one before.
    for now in [0, 11_000, 22_000, 33_000, 44_000u64] {
        let found = match limiter.get_entity("k".to_owned(), Duration::from_secs(10)) {
            Lookup::Ready(found) => found,
            Lookup::Fetch(fetch) => {
                let fetch = RedisFetch { now, ..fetch };
                limiter.get_entity_fetched(fetch, Ok(stored.clone())).unwrap().unwrap()
            }
        };
        match limiter.limit_found_at("k".to_owned(), found, &config, now, now) {
            LimitStep::Store(store, headers) => {
                stored = Some(store.entity);
                told.push(headers.remaining);
            }
            LimitStep::Done(Err(error)) => assert_eq!(error, LimiterError::Limited),
            other => panic!("{:?}", other),
        }
    }
    assert_eq!(told, vec![2, 1, 0]);
}

#[test]
fn mixed_storage_keeps_recent_counters_from_redis() {
    let mut limiter = limiter(StorageType::RedisAndMemoryMix);
    let acceptable = Duration::from_millis(100);
    let cases = vec![
        // now, last access, end of the cycle, kept
        (1_000, 901, 2_000, true),
        (1_000, 900, 2_000, false),
        (1_000, 950, 1_000, false),
        (1_000, 950, 1_001, true),
        (1_000, 1_000, 2_000, true),
    ];
    for (now, accessed, expires, kept) in cases {
        let key = format!("{}-{}", accessed, expires);
        let fetch = RedisFetch { key: key.clone(), now, acceptable };
        let entity = counter(3, expires, accessed);
        let found = limiter.get_entity_fetched(fetch, Ok(Some(entity.clone())));
        assert_eq!(found, Some(Ok(Some(entity))));
        assert_eq!(limiter.in_memory.contains_key(&key), kept);
    }
}

#[test]
fn mixed_storage_fetches_what_memory_lacks() {
    let mut limiter = limiter(StorageType::RedisAndMemoryMix);
    let config = bucket(4);
    let fetch = to_fetch(limiter.limit_this("a".to_owned(), &config));
    assert_eq!(fetch.acceptable, Duration::from_secs(10));
    let now = fetch.now;
    let entity = counter(5, now + 50_000, now);
    let step = limiter.limit_this_fetched(fetch, Ok(Some(entity)), &config).unwrap();
    let (store, _) = to_store(step);
    assert_eq!(store.entity.remaining, 4);
    assert!(store.entity.last_accessed_at >= now);
    assert!(limiter.in_memory.contains_key("my.bucket:ip:a"));
    let step = limiter.limit_this("a".to_owned(), &config).unwrap();
    assert_eq!(to_store(step).0.entity.remaining, 3);
}

#[test]
fn mixed_storage_opens_the_next_cycle_in_both() {
    let mut limiter = limiter(StorageType::RedisAndMemoryMix);
    let step = limiter.limit_found_at("k".to_owned(), Some(counter(0, 10, 5)), &bucket(4), 11, 12);
    let (store, headers) = to_store(step);
    assert_eq!((headers.remaining, headers.reset), (3, 60_012));
    let kept = ready(limiter.get_entity("k".to_owned(), Duration::from_secs(1)));
    assert_eq!(kept, Some(store.entity));
}

#[test]
fn full_memory_refuses_first_requests() {
    let mut limiter = limiter(StorageType::InMemory);
    limiter.max_memory_size = Some(200);
    limiter.current_memory_usage_mb = 200;
    admitted(limiter.limit_this("a".to_owned(), &bucket(2)));
    limiter.current_memory_usage_mb = 201;
    assert_eq!(
        refused(limiter.limit_this("b".to_owned(), &bucket(1))),
        LimiterError::MemoryLimitExceeded
    );
    assert_eq!(limiter.in_memory.len(), 1);
    // A counter that exists needs no room.
    admitted(limiter.limit_this("a".to_owned(), &bucket(2)));
}

#[test]
fn full_redis_refuses_first_requests() {
    let mut limiter = limiter(StorageType::Redis);
    limiter.max_redis_size = Some(50);
    limiter.current_redis_memory_usage_mb = 51;
    let step = limiter.limit_found_at("k".to_owned(), None, &bucket(1), 1, 1);
    assert_eq!(refused(Some(step)), LimiterError::RedisMemoryExceeded);
    limiter.current_redis_memory_usage_mb = 50;
    let step = limiter.limit_found_at("k".to_owned(), None, &bucket(1), 1, 1);
    to_store(step);
}

#[test]
fn mixed_storage_counts_where_there_is_room() {
    let full = |memory: u64, redis: u64| {
        let mut limiter = limiter(StorageType::RedisAndMemoryMix);
        limiter.max_memory_size = Some(10);
        limiter.max_redis_size = Some(20);
        limiter.current_memory_usage_mb = memory;
        limiter.current_redis_memory_usage_mb = redis;
        let step = limiter.limit_found_at("k".to_owned(), None, &bucket(1), 1, 1);
        (step, limiter.in_memory.len())
    };
    let (step, kept) = full(11, 21);
    assert_eq!(refused(Some(step)), LimiterError::BothMemoryAndRedisMemoryExceeded);
    assert_eq!(kept, 0);
    let (step, kept) = full(11, 20);
    to_store(step);
    assert_eq!(kept, 0);
    let (step, kept) = full(10, 21);
    admitted(Some(step));
    assert_eq!(kept, 1);
    let (step, kept) = full(10, 20);
    to_store(step);
    assert_eq!(kept, 1);
}

#[test]
fn cycle_beyond_the_range_of_timestamps_has_no_step() {
    let mut limiter = limiter(StorageType::InMemory);
    let mut config = bucket(1);
    config.cycle_duration = Duration::from_millis(u64::MAX);
    assert!(limiter.limit_this("a".to_owned(), &config).is_none());
    assert!(limiter.reset_entity("a".to_owned(), LimitEntityType::IP, &config).is_none());
    assert!(limiter.in_memory.is_empty());
    assert!(config.cycle_fits(0));
    assert!(!config.cycle_fits(1));
}

#[test]
fn cycle_counts_the_low_bits_of_its_milliseconds() {
    let mut config = bucket(1);
    // One millisecond more than 64 bits count.
    config.cycle_duration = Duration::from_millis(u64::MAX) + Duration::from_millis(1) + Duration::from_millis(7);
    let entity = config.fresh(LimitEntityType::IP, 5);
    assert_eq!(entity.expires_at, 12);
}

#[test]
fn clock_behind_the_last_access_has_no_step_in_mixed_storage() {
    let mut limiter = limiter(StorageType::RedisAndMemoryMix);
    let config = bucket(1);
    let ahead = counter(3, u64::MAX, u64::MAX);
    limiter.in_memory.insert("my.bucket:ip:a".to_owned(), ahead.clone());
    assert!(limiter.limit_this("a".to_owned(), &config).is_none());
    assert!(limiter
        .decrease_remaining_and_update("k".to_owned(), ahead.clone(), &config)
        .is_none());
    let fetch = to_fetch(limiter.limit_this("b".to_owned(), &config));
    assert!(limiter.limit_this_fetched(fetch, Ok(Some(ahead.clone())), &config).is_none());
    let fetch = RedisFetch { key: "k".to_owned(), now: 9, acceptable: Duration::from_secs(1) };
    assert_eq!(limiter.get_entity_fetched(fetch, Ok(Some(ahead))), None);
    let fetch = RedisFetch { key: "k".to_owned(), now: 9, acceptable: Duration::from_secs(1) };
    let error = LimiterError::RedisGetError;
    assert_eq!(limiter.get_entity_fetched(fetch, Err(error)), Some(Err(error)));
    assert_eq!(limiter.in_memory.len(), 1);
}

#[test]
fn counters_never_exceed_their_supply() {
    for storage_type in [StorageType::InMemory, StorageType::Redis, StorageType::RedisAndMemoryMix] {
        let mut limiter = limiter(storage_type);
        let mut found = None;
        for now in 0..9u64 {
            let step = limiter.limit_found_at("k".to_owned(), found.clone(), &bucket(5), now, now);
            let headers = match step {
                LimitStep::Done(Ok(headers)) => headers,
                LimitStep::Store(store, headers) => {
                    found = Some(store.entity);
                    headers
                },
                LimitStep::Done(Err(error)) => {
                    assert_eq!(error, LimiterError::Limited);
                    assert!(now > 4);
                    continue;
                },
                other => panic!("{:?}", other),
            };
            if storage_type == StorageType::InMemory {
                found = ready(limiter.get_entity("k".to_owned(), Duration::from_secs(1)));
            }
            assert!(headers.remaining <= headers.limit);
            assert_eq!(headers.remaining, 4 - now);
            assert_eq!(headers.reset, 60_000);
        }
    }
}

#[test]
fn buckets_of_one_name_share_counters() {
    let mut limiter = limiter(StorageType::InMemory);
    let one = bucket(2);
    let mut other = bucket(50);
    other.cycle_duration = Duration::from_secs(1);
    assert_eq!(admitted(limiter.limit_this("a".to_owned(), &one)).remaining, 1);
    assert_eq!(admitted(limiter.limit_this("a".to_owned(), &other)).remaining, 0);
    assert_eq!(refused(limiter.limit_this("a".to_owned(), &one)), LimiterError::Limited);
}

#[test]
fn buckets_of_other_names_are_counted_apart() {
    let mut limiter = limiter(StorageType::InMemory);
    let one = bucket(1);
    let mut other = bucket(1);
    other.name = "other".to_owned();
    let mut by_id = bucket(1);
    by_id.limit_by = LimitEntityType::ID;
    admitted(limiter.limit_this("a".to_owned(), &one));
    admitted(limiter.limit_this("a".to_owned(), &other));
    admitted(limiter.limit_this("a".to_owned(), &by_id));
    assert_eq!(limiter.in_memory.len(), 3);
    // A colon in a name can make two keys one.
    let mut long = bucket(1);
    long.name = "a:ip".to_owned();
    long.limit_by = LimitEntityType::Custom("b".to_owned());
    let mut short = bucket(1);
    short.name = "a".to_owned();
    assert_eq!(long.key("c".to_owned()), short.key("b:c".to_owned()));
}

#[test]
fn first_requests_need_no_room_without_limits() {
    for storage_type in [StorageType::InMemory, StorageType::Redis, StorageType::RedisAndMemoryMix] {
        let mut limiter = limiter(storage_type);
        limiter.current_memory_usage_mb = u64::MAX;
        limiter.current_redis_memory_usage_mb = u64::MAX;
        let step = limiter.limit_found_at("k".to_owned(), None, &bucket(1), 1, 1);
        assert!(!matches!(step, LimitStep::Done(Err(_))));
    }
}
