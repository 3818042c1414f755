//! The errors of the limiter.

use vstd::prelude::*;

verus! {

#[derive(Debug, Clone, Copy, PartialEq, Eq, Structural)]
pub enum LimiterError {
    NotStorageConfigured,
    StorageError,
    RateLimitError,
    UnknownError,
    SerializationError,
    DeserializationError,
    MemoryLimitExceeded,
    RedisMemoryExceeded,
    BothMemoryAndRedisMemoryExceeded,
    NotRedisConfigured,
    RedisSetError,
    RedisGetError,
    RedisDelError,
    RedisGetUsageMemoryError,
    NoIPFound,
    Limited,
}

impl LimiterError {
    /// The message that describes the error.
    pub open spec fn message(self) -> Seq<char> {
        match self {
            LimiterError::NotStorageConfigured => "Storage type is not configured"@,
            LimiterError::StorageError => "Storage error"@,
            LimiterError::RateLimitError => "Rate limit error"@,
            LimiterError::UnknownError => "Unknown error"@,
            LimiterError::SerializationError => "Failed to serialize data"@,
            LimiterError::DeserializationError => "Failed to deserialize data"@,
            LimiterError::MemoryLimitExceeded => "In-memory storage limit exceeded"@,
            LimiterError::RedisMemoryExceeded => "Redis storage limit exceeded"@,
            LimiterError::BothMemoryAndRedisMemoryExceeded =>
                "Both in-memory and Redis storage limits exceeded"@,
            LimiterError::NotRedisConfigured => "Redis storage is not configured"@,
            LimiterError::RedisSetError => "Failed to execute Redis SET command"@,
            LimiterError::RedisGetError => "Failed to execute Redis GET command"@,
            LimiterError::RedisDelError => "Failed to execute Redis DEL command"@,
            LimiterError::RedisGetUsageMemoryError =>
                "Failed to get or parse Redis memory usage info"@,
            LimiterError::NoIPFound => "No IP found in request"@,
            LimiterError::Limited => "Rate limit exceeded"@,
        }
    }

    /// The errors by which the limiter turns a request away: its supply is used up, or there
    /// is no room left to count it.
    pub open spec fn is_limit(self) -> bool {
        self is Limited || self.is_memory_limit()
    }

    /// The errors that report that a storage limit is exceeded.
    pub open spec fn is_memory_limit(self) -> bool {
        ||| self is MemoryLimitExceeded
        ||| self is RedisMemoryExceeded
        ||| self is BothMemoryAndRedisMemoryExceeded
    }

    /// Returns the message that describes the error.
    pub fn to_string(&self) -> (text: String)
        ensures
            text@ == self.message(),
    {
        let message: &str = match self {
            LimiterError::NotStorageConfigured => "Storage type is not configured",
            LimiterError::StorageError => "Storage error",
            LimiterError::RateLimitError => "Rate limit error",
            LimiterError::UnknownError => "Unknown error",
            LimiterError::SerializationError => "Failed to serialize data",
            LimiterError::DeserializationError => "Failed to deserialize data",
            LimiterError::MemoryLimitExceeded => "In-memory storage limit exceeded",
            LimiterError::RedisMemoryExceeded => "Redis storage limit exceeded",
            LimiterError::BothMemoryAndRedisMemoryExceeded => {
                "Both in-memory and Redis storage limits exceeded"
            },
            LimiterError::NotRedisConfigured => "Redis storage is not configured",
            LimiterError::RedisSetError => "Failed to execute Redis SET command",
            LimiterError::RedisGetError => "Failed to execute Redis GET command",
            LimiterError::RedisDelError => "Failed to execute Redis DEL command",
            LimiterError::RedisGetUsageMemoryError => {
                "Failed to get or parse Redis memory usage info"
            },
            LimiterError::NoIPFound => "No IP found in request",
            LimiterError::Limited => "Rate limit exceeded",
        };
        message.to_owned()
    }
}

} // verus!
