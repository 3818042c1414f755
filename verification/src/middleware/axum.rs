//! The decisions of the middleware for Axum.

use crate::errors::LimiterError;
use crate::limiter::{LimitEntityType, LimiterHeaders};
use crate::middleware::headers_of;
use crate::text::trimmed_before;
use vstd::prelude::*;

verus! {

/// The client that a request came from behind a proxy: the first address that the header
/// `X-Forwarded-For` lists or, without that header, the address of the peer.
pub open spec fn client(peer_ip: Seq<char>, forwarded_for: Option<&str>) -> Seq<char> {
    match forwarded_for {
        Some(list) => crate::text::trim(crate::text::before(list@, ',')),
        None => peer_ip,
    }
}

/// Returns the entity that a request counts for, by the address of the peer and the header
/// `X-Forwarded-For`; or the response where the limiter cannot tell requests apart in this way.
pub fn entity_key(
    limit_by: &LimitEntityType,
    peer_ip: String,
    forwarded_for: Option<&str>,
) -> (key: Result<String, (u16, &'static str)>)
    ensures
        match limit_by@ {
            crate::entity::LimitEntityTypeView::Global => key matches Ok(key) && key@ == "_"@,
            crate::entity::LimitEntityTypeView::IP => key matches Ok(key) && key@ == peer_ip@,
            crate::entity::LimitEntityTypeView::ProxiedIP => key matches Ok(key) && key@ == client(
                peer_ip@,
                forwarded_for,
            ),
            _ => key matches Err((code, message)) && code == 500 && message@
                == "Rate limiter misconfigured"@,
        },
{
    match limit_by {
        LimitEntityType::Global => Ok("_".to_owned()),
        LimitEntityType::IP => Ok(peer_ip),
        LimitEntityType::ProxiedIP => match forwarded_for {
            Some(list) => Ok(trimmed_before(list, ',')),
            None => Ok(peer_ip),
        },
        _ => Err((500, "Rate limiter misconfigured")),
    }
}

/// The status and the text of the response to a request that was not admitted.
pub open spec fn refusal(error: LimiterError) -> (u16, Seq<char>) {
    if error is Limited {
        (429, "Rate limit exceeded"@)
    } else if error.is_memory_limit() {
        (503, "Service temporarily overloaded"@)
    } else {
        (500, "Internal server error"@)
    }
}

/// Returns the headers to add to the response to an admitted request, or the status and the
/// text of the response to one that was not.
pub fn respond(result: &Result<LimiterHeaders, LimiterError>) -> (response: Result<
    Vec<(&'static str, String)>,
    (u16, &'static str),
>)
    ensures
        match result {
            Ok(headers) => response matches Ok(pairs) && crate::middleware::header_texts(pairs@)
                == crate::middleware::response_headers(headers@),
            Err(error) => response matches Err((code, message)) && (code, message@) == refusal(
                *error,
            ),
        },
{
    match result {
        Ok(headers) => Ok(headers_of(headers)),
        Err(error) => match error {
            LimiterError::Limited => Err((429, "Rate limit exceeded")),
            LimiterError::MemoryLimitExceeded
            | LimiterError::RedisMemoryExceeded
            | LimiterError::BothMemoryAndRedisMemoryExceeded => {
                Err((503, "Service temporarily overloaded"))
            },
            _ => Err((500, "Internal server error")),
        },
    }
}

} // verus!
