use nervio_limiter::errors::LimiterError;
use nervio_limiter::limiter::{LimitEntityType, LimiterHeaders};
use nervio_limiter::middleware::{actix_web, axum, headers_of};
use nervio_limiter::text::{parse_usize, to_decimal, trimmed_before};

fn all_errors() -> Vec<(LimiterError, &'static str)> {
    vec![
        (LimiterError::NotStorageConfigured, "Storage type is not configured"),
        (LimiterError::StorageError, "Storage error"),
        (LimiterError::RateLimitError, "Rate limit error"),
        (LimiterError::UnknownError, "Unknown error"),
        (LimiterError::SerializationError, "Failed to serialize data"),
        (LimiterError::DeserializationError, "Failed to deserialize data"),
        (LimiterError::MemoryLimitExceeded, "In-memory storage limit exceeded"),
        (LimiterError::RedisMemoryExceeded, "Redis storage limit exceeded"),
        (
            LimiterError::BothMemoryAndRedisMemoryExceeded,
            "Both in-memory and Redis storage limits exceeded",
        ),
        (LimiterError::NotRedisConfigured, "Redis storage is not configured"),
        (LimiterError::RedisSetError, "Failed to execute Redis SET command"),
        (LimiterError::RedisGetError, "Failed to execute Redis GET command"),
        (LimiterError::RedisDelError, "Failed to execute Redis DEL command"),
        (
            LimiterError::RedisGetUsageMemoryError,
            "Failed to get or parse Redis memory usage info",
        ),
        (LimiterError::NoIPFound, "No IP found in request"),
        (LimiterError::Limited, "Rate limit exceeded"),
    ]
}

fn told() -> LimiterHeaders {
    LimiterHeaders {
        key: "k".to_owned(),
        bucket: "b".to_owned(),
        limit: 120,
        remaining: 0,
        reset: 1_700_000_000_123,
    }
}

#[test]
fn error_messages() {
    for (error, message) in all_errors() {
        assert_eq!(error.to_string(), message);
    }
}

#[test]
fn three_headers_are_set() {
    let expected = vec![
        ("x-ratelimit-limit", "120".to_owned()),
        ("x-ratelimit-remaining", "0".to_owned()),
        ("x-ratelimit-reset", "1700000000123".to_owned()),
    ];
    assert_eq!(headers_of(&told()), expected);
    assert_eq!(actix_web::respond(&Ok(told())), Ok(expected.clone()));
    assert_eq!(axum::respond(&Ok(told())), Ok(expected));
}

#[test]
fn actix_statuses() {
    for (error, _) in all_errors() {
        let limit = matches!(
            error,
            LimiterError::Limited
                | LimiterError::MemoryLimitExceeded
                | LimiterError::RedisMemoryExceeded
                | LimiterError::BothMemoryAndRedisMemoryExceeded
        );
        assert_eq!(actix_web::respond(&Err(error)), Err(if limit { 429 } else { 500 }));
    }
}

#[test]
fn axum_statuses() {
    for (error, _) in all_errors() {
        let expected = match error {
            LimiterError::Limited => (429, "Rate limit exceeded"),
            LimiterError::MemoryLimitExceeded
            | LimiterError::RedisMemoryExceeded
            | LimiterError::BothMemoryAndRedisMemoryExceeded => {
                (503, "Service temporarily overloaded")
            }
            _ => (500, "Internal server error"),
        };
        assert_eq!(axum::respond(&Err(error)), Err(expected));
    }
}

#[test]
fn actix_entities() {
    let key = |kind: LimitEntityType, peer: Option<&str>, real: Option<&str>| {
        actix_web::entity_key(&kind, peer, real)
    };
    assert_eq!(key(LimitEntityType::Global, Some("1.1.1.1"), None).unwrap(), "_");
    assert_eq!(key(LimitEntityType::IP, Some("1.1.1.1"), Some("2.2.2.2")).unwrap(), "1.1.1.1");
    assert_eq!(key(LimitEntityType::IP, None, Some("2.2.2.2")).unwrap(), "_");
    assert_eq!(key(LimitEntityType::ProxiedIP, Some("1.1.1.1"), Some("2.2.2.2")).unwrap(), "2.2.2.2");
    assert_eq!(key(LimitEntityType::ProxiedIP, Some("1.1.1.1"), None).unwrap(), "_");
    assert_eq!(key(LimitEntityType::ID, Some("1.1.1.1"), None), None);
    assert_eq!(key(LimitEntityType::Custom("x".to_owned()), None, None), None);
}

#[test]
fn actix_supports_global_and_ip() {
    assert!(actix_web::supports(&LimitEntityType::Global));
    assert!(actix_web::supports(&LimitEntityType::IP));
    assert!(!actix_web::supports(&LimitEntityType::ProxiedIP));
    assert!(!actix_web::supports(&LimitEntityType::ID));
    assert!(!actix_web::supports(&LimitEntityType::Custom("ip".to_owned())));
}

#[test]
fn axum_entities() {
    let key = |kind: LimitEntityType, forwarded: Option<&str>| {
        axum::entity_key(&kind, "9.9.9.9".to_owned(), forwarded)
    };
    assert_eq!(key(LimitEntityType::Global, Some("1.1.1.1")), Ok("_".to_owned()));
    assert_eq!(key(LimitEntityType::IP, Some("1.1.1.1")), Ok("9.9.9.9".to_owned()));
    assert_eq!(key(LimitEntityType::ProxiedIP, Some(" 1.1.1.1 , 2.2.2.2")), Ok("1.1.1.1".to_owned()));
    assert_eq!(key(LimitEntityType::ProxiedIP, Some("1.1.1.1")), Ok("1.1.1.1".to_owned()));
    assert_eq!(key(LimitEntityType::ProxiedIP, Some("")), Ok(String::new()));
    assert_eq!(key(LimitEntityType::ProxiedIP, None), Ok("9.9.9.9".to_owned()));
    assert_eq!(key(LimitEntityType::ID, None), Err((500, "Rate limiter misconfigured")));
}

#[test]
fn trimming_follows_unicode() {
    for c in ('\0'..='\u{ffff}').chain('\u{e0000}'..='\u{e0fff}') {
        let text = format!("{}a b{},tail", c, c);
        assert_eq!(trimmed_before(&text, ','), text.split(',').next().unwrap().trim());
    }
    assert_eq!(trimmed_before(" \t ", ','), "");
    assert_eq!(trimmed_before("", ','), "");
}

#[test]
fn numbers_in_decimal() {
    for n in [0u64, 9, 10, 99, 100, 1_234_567_890, u64::MAX - 1, u64::MAX] {
        assert_eq!(to_decimal(n), format!("{}", n));
        assert_eq!(parse_usize(&to_decimal(n)), Some(n as usize));
    }
    for text in ["", "+", "++1", "-1", "1 ", "0x1", "18446744073709551616", "+12", "007"] {
        assert_eq!(parse_usize(text), text.parse::<usize>().ok());
    }
}
