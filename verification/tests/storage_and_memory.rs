use nervio_limiter::errors::LimiterError;
use nervio_limiter::limiter::{Entity, LimitEntityType, Limiter};
use nervio_limiter::memory_check::{
    approx_memory_size, exceeds_limit, get_dashmap_approx_memory_size, megabytes_of, to_double,
    Usage,
};
use nervio_limiter::storage::{
    get_hashmap_memory_size, get_redis_info, get_redis_memory_usage, hash_table_size, size_of_val,
    StorageType,
};
use std::mem::size_of;
use std::time::Duration;

fn reply(text: &str) -> Result<String, ()> {
    Ok(text.to_owned())
}

fn limiter(storage_type: StorageType, redis: Option<u8>) -> Limiter<u8> {
    Limiter::new(storage_type, redis, Some(10), Some(20), Duration::from_secs(1))
}

fn counter() -> Entity {
    Entity {
        entity_type: LimitEntityType::Global,
        initial_supply: 1,
        remaining: 1,
        created_at: 1,
        expires_at: 1,
        last_accessed_at: 1,
    }
}

#[test]
fn info_fields_are_read() {
    let info = get_redis_info(reply(
        "# Memory\r\nused_memory:1048576\r\nused_memory_human:1.00M\r\n\r\ndb0:keys=1\ntime:12:30\nlast:\r",
    ))
    .unwrap();
    assert_eq!(info.get("used_memory").unwrap(), "1048576");
    assert_eq!(info.get("used_memory_human").unwrap(), "1.00M");
    assert_eq!(info.get("db0").unwrap(), "keys=1");
    assert!(info.get("# Memory").is_none());
    assert!(info.get("time").is_none());
    // A carriage return counts as part of the end of a line only before a line feed.
    assert_eq!(info.get("last").unwrap(), "\r");
}

#[test]
fn later_info_lines_count() {
    let info = get_redis_info(reply("a:1\nb:2\na:3\n:empty\n")).unwrap();
    assert_eq!(info.get("a").unwrap(), "3");
    assert_eq!(info.get("b").unwrap(), "2");
    assert_eq!(info.get("").unwrap(), "empty");
    assert!(info.get("c").is_none());
}

#[test]
fn info_fields_are_listed() {
    let info = get_redis_info(reply("a:1\nb:2\nnone\na:3\n")).unwrap();
    assert_eq!(info.len(), 2);
    let mut entries = info.entries();
    entries.sort();
    let expected = vec![
        ("a".to_owned(), "3".to_owned()),
        ("b".to_owned(), "2".to_owned()),
    ];
    assert_eq!(entries, expected);
    let empty = get_redis_info(reply("")).unwrap();
    assert_eq!((empty.len(), empty.entries()), (0, vec![]));
}

#[test]
fn failed_info_is_an_error() {
    assert_eq!(get_redis_info(Err::<String, ()>(())).err(), Some(LimiterError::RedisSetError));
    assert_eq!(get_redis_memory_usage(Err::<String, ()>(())), Err(LimiterError::RedisSetError));
}

#[test]
fn used_memory_is_read() {
    assert_eq!(get_redis_memory_usage(reply("# Memory\r\nused_memory:1234567\r\nx:1\r\n")), Ok(1234567));
    assert_eq!(get_redis_memory_usage(reply("used_memory:+7")), Ok(7));
    assert_eq!(get_redis_memory_usage(reply("used_memory:1\nused_memory:002\n")), Ok(2));
    let most = format!("used_memory:{}\r\n", usize::MAX);
    assert_eq!(get_redis_memory_usage(reply(&most)), Ok(usize::MAX));
}

#[test]
fn unreadable_used_memory_is_an_error() {
    let error = Err(LimiterError::RedisGetUsageMemoryError);
    for text in [
        "",
        "used_memory_human:1M",
        "used_memory:",
        "used_memory:+",
        "used_memory:-1",
        "used_memory: 1",
        "used_memory:1_0",
        "used_memory:1:2",
        "used_memory:99999999999999999999999",
    ] {
        assert_eq!(get_redis_memory_usage(reply(text)), error);
    }
}

#[test]
fn sizes_of_values() {
    assert_eq!(size_of_val(&7u64), 8);
    assert_eq!(size_of_val(&"text".to_owned()), size_of::<String>());
}

#[test]
fn sizes_of_hash_tables() {
    assert_eq!(hash_table_size::<u64, u32>(48, 7, 3), Some(48 + 7 * size_of::<(u64, u32)>() + 3 * 12));
    assert_eq!(hash_table_size::<u64, u32>(48, usize::MAX, 3), None);
    assert_eq!(hash_table_size::<u64, u32>(usize::MAX, 0, 1), None);
    let empty = get_redis_info(reply("")).unwrap();
    let none = get_hashmap_memory_size(&empty);
    let two = get_redis_info(reply("a:1\nb:2\n")).unwrap();
    let some = get_hashmap_memory_size(&two);
    assert_eq!(none, size_of::<hashbrown::HashMap<String, String>>());
    let room = hashbrown::HashMap::<String, String>::with_capacity(2).capacity();
    let texts = 2 * 2 * size_of::<String>();
    assert_eq!(some, none + room * size_of::<(String, String)>() + texts);
}

#[test]
fn sizes_of_concurrent_maps() {
    assert_eq!(approx_memory_size::<u64, u8>(5, 16), Some(5 * 9 + 16 * size_of::<usize>()));
    assert_eq!(approx_memory_size::<u64, u8>(usize::MAX, 1), None);
    let limiter = limiter(StorageType::InMemory, None);
    for i in 0..100 {
        limiter.in_memory.insert(format!("{}", i), counter());
    }
    let size = get_dashmap_approx_memory_size(&limiter.in_memory);
    let entry = size_of::<String>() + size_of::<Entity>();
    assert_eq!(size, 100 * entry + limiter.in_memory.capacity() * size_of::<usize>());
}

#[test]
fn megabytes_follow_double_precision() {
    let samples = [
        0u64,
        1,
        0xf_ffff,
        0x10_0000,
        5 * 0x10_0000 + 1,
        (1 << 53) - 1,
        1 << 53,
        (1 << 53) + 1,
        (1 << 53) + 2,
        (1 << 53) + 3,
        (1 << 54) + 2,
        (1 << 54) + 6,
        (1 << 60) - 1,
        (1 << 60) + 128,
        u64::MAX - 1024,
        u64::MAX - 1023,
        u64::MAX,
        0x1234_5678_9abc_def1,
    ];
    for bytes in samples {
        assert_eq!(to_double(bytes) as f64, bytes as f64);
        assert_eq!(to_double(bytes), (bytes as f64) as u128);
        let mb = bytes as f64 / (1024.0 * 1024.0);
        assert_eq!(megabytes_of(bytes as usize), mb as u64);
        for max in [0u64, 1, 5, 1 << 33, (1 << 40) - 1, 1 << 40, u64::MAX] {
            assert_eq!(exceeds_limit(bytes as usize, Some(max)), mb > max as f64);
        }
        assert!(!exceeds_limit(bytes as usize, None));
    }
}

#[test]
fn redis_usage_is_recorded() {
    let mut limiter = limiter(StorageType::Redis, Some(1));
    assert!(limiter.checks_redis_memory());
    let usage = limiter.record_redis_memory(Ok(20 * 0x10_0000)).unwrap();
    assert_eq!(usage, Usage { bytes: 20 * 0x10_0000, exceeded: false });
    assert_eq!(limiter.current_redis_memory_usage_mb, 20);
    assert!(limiter.record_redis_memory(Ok(20 * 0x10_0000 + 1)).unwrap().exceeded);
    assert_eq!(limiter.current_redis_memory_usage_mb, 20);
    assert!(limiter.record_redis_memory(Ok(21 * 0x10_0000)).unwrap().exceeded);
    assert_eq!(limiter.current_redis_memory_usage_mb, 21);
    let failed = limiter.record_redis_memory(Err(LimiterError::RedisGetUsageMemoryError));
    assert_eq!(failed, Err(LimiterError::RedisGetUsageMemoryError));
    assert_eq!(limiter.current_redis_memory_usage_mb, 21);
    assert_eq!(limiter.current_memory_usage_mb, 0);
}

#[test]
fn redis_is_checked_only_where_it_is_used() {
    assert!(limiter(StorageType::RedisAndMemoryMix, Some(1)).checks_redis_memory());
    assert!(!limiter(StorageType::Redis, None).checks_redis_memory());
    assert!(!limiter(StorageType::InMemory, Some(1)).checks_redis_memory());
}

#[test]
fn memory_usage_is_recorded() {
    let mut limiter = limiter(StorageType::InMemory, None);
    limiter.in_memory.insert("k".to_owned(), counter());
    let size = get_dashmap_approx_memory_size(&limiter.in_memory);
    assert_eq!(limiter.check_memory(), Some(Usage { bytes: size, exceeded: false }));
    assert_eq!(limiter.current_memory_usage_mb, 0);
    assert!(limiter.record_memory(11 * 0x10_0000).exceeded);
    assert_eq!(limiter.current_memory_usage_mb, 11);
    assert_eq!(limiter.current_redis_memory_usage_mb, 0);
}

#[test]
fn redis_storage_has_no_memory_to_check() {
    let mut limiter = limiter(StorageType::Redis, Some(1));
    assert_eq!(limiter.check_memory(), None);
}

#[test]
fn failed_redis_report_does_not_stop_the_round() {
    let mut limiter = limiter(StorageType::RedisAndMemoryMix, Some(1));
    limiter.in_memory.insert("k".to_owned(), counter());
    let size = get_dashmap_approx_memory_size(&limiter.in_memory);
    limiter.current_redis_memory_usage_mb = 7;
    limiter.current_memory_usage_mb = 9;
    let report = limiter.memory_check_task(Some(Err(LimiterError::RedisSetError)));
    assert_eq!(report.redis, Some(Err(LimiterError::RedisSetError)));
    assert_eq!(report.memory, Some(Usage { bytes: size, exceeded: false }));
    assert_eq!(limiter.current_redis_memory_usage_mb, 7);
    assert_eq!(limiter.current_memory_usage_mb, 0);
}

#[test]
fn round_of_checks_records_both_figures() {
    let mut limiter = limiter(StorageType::RedisAndMemoryMix, Some(1));
    limiter.current_memory_usage_mb = 9;
    let bytes = 21 * 0x10_0000;
    let report = limiter.memory_check_task(Some(Ok(bytes)));
    assert_eq!(report.redis, Some(Ok(Usage { bytes, exceeded: true })));
    assert!(report.memory.is_some());
    assert_eq!(limiter.current_redis_memory_usage_mb, 21);
    assert_eq!(limiter.current_memory_usage_mb, 0);
}

#[test]
fn round_of_checks_leaves_out_what_is_not_used() {
    let mut in_memory = limiter(StorageType::InMemory, Some(1));
    let report = in_memory.memory_check_task(Some(Ok(21 * 0x10_0000)));
    assert_eq!(report.redis, None);
    assert!(report.memory.is_some());
    assert_eq!(in_memory.current_redis_memory_usage_mb, 0);

    let mut redis = limiter(StorageType::Redis, Some(1));
    redis.current_memory_usage_mb = 9;
    let report = redis.memory_check_task(Some(Ok(21 * 0x10_0000)));
    assert!(report.redis.is_some());
    assert_eq!(report.memory, None);
    assert_eq!(redis.current_memory_usage_mb, 9);
    let report = redis.memory_check_task(None);
    assert_eq!(report.redis, None);
    assert_eq!(redis.current_redis_memory_usage_mb, 21);
}

#[test]
fn memory_check_starts_once() {
    let mut limiter = limiter(StorageType::InMemory, None);
    assert!(limiter.start_memory_check_task(Duration::from_secs(5)));
    assert!(!limiter.start_memory_check_task(Duration::from_secs(9)));
    assert_eq!(limiter.memory_check_interval, Some(Duration::from_secs(5)));
}

#[test]
fn builder_has_defaults() {
    let limiter: Limiter<u8> = Limiter::builder().build();
    assert_eq!(limiter.storage_type, StorageType::InMemory);
    assert_eq!(limiter.redis_conn, None);
    assert_eq!(limiter.max_memory_size, None);
    assert_eq!(limiter.max_redis_size, None);
    assert_eq!(
        limiter.acceptable_last_accesed_time_to_cache_redis_in_memory,
        Duration::from_secs(5)
    );
    assert_eq!(limiter.memory_check_interval, Some(Duration::from_secs(5)));
    assert!(limiter.in_memory.is_empty());
}

#[test]
fn builder_keeps_settings() {
    let limiter = Limiter::builder()
        .set_storage_type(StorageType::Redis)
        .set_storage_type(StorageType::RedisAndMemoryMix)
        .set_redis_conn(7u8)
        .set_max_memory_size(100)
        .set_max_redis_size(200)
        .set_acceptable_last_accesed_time_to_cache_redis_in_memory(Duration::from_secs(30))
        .build();
    assert_eq!(limiter.storage_type, StorageType::RedisAndMemoryMix);
    assert_eq!(limiter.redis_conn, Some(7));
    assert_eq!(limiter.max_memory_size, Some(100));
    assert_eq!(limiter.max_redis_size, Some(200));
    assert_eq!(
        limiter.acceptable_last_accesed_time_to_cache_redis_in_memory,
        Duration::from_secs(30)
    );
}

#[test]
fn order_of_settings_is_free() {
    let one = Limiter::builder()
        .set_max_memory_size(1)
        .set_redis_conn(7u8)
        .set_max_redis_size(4)
        .set_max_memory_size(2)
        .build();
    let other = Limiter::builder()
        .set_max_redis_size(3)
        .set_max_memory_size(2)
        .set_max_redis_size(4)
        .set_redis_conn(6u8)
        .set_redis_conn(7u8)
        .build();
    for limiter in [one, other] {
        assert_eq!(limiter.storage_type, StorageType::InMemory);
        assert_eq!(limiter.redis_conn, Some(7));
        assert_eq!(limiter.max_memory_size, Some(2));
        assert_eq!(limiter.max_redis_size, Some(4));
        assert_eq!(
            limiter.acceptable_last_accesed_time_to_cache_redis_in_memory,
            Duration::from_secs(5)
        );
    }
}
