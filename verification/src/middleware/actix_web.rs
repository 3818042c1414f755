//! The decisions of the middleware for Actix Web.

use crate::errors::LimiterError;
use crate::limiter::{LimitEntityType, LimiterHeaders};
use crate::middleware::headers_of;
use vstd::prelude::*;

verus! {

/// Returns whether the middleware can be set up to tell requests apart in this way: not at all,
/// or by the address of the peer.
pub fn supports(limit_by: &LimitEntityType) -> (yes: bool)
    ensures
        yes == (limit_by@ is Global || limit_by@ is IP),
{
    match limit_by {
        LimitEntityType::Global => true,
        LimitEntityType::IP => true,
        _ => false,
    }
}

/// An address, or the entity that all requests without a known address share.
pub open spec fn known_address(address: Option<&str>) -> Seq<char> {
    match address {
        Some(address) => address@,
        None => "_"@,
    }
}

/// Returns the entity that a request counts for, by the address of the peer and that of the
/// client before any proxies; `None` where the request is not limited.
pub fn entity_key(
    limit_by: &LimitEntityType,
    peer_addr: Option<&str>,
    realip_remote_addr: Option<&str>,
) -> (key: Option<String>)
    ensures
        match limit_by@ {
            crate::entity::LimitEntityTypeView::Global => key matches Some(key) && key@ == "_"@,
            crate::entity::LimitEntityTypeView::IP => key matches Some(key) && key@
                == known_address(peer_addr),
            crate::entity::LimitEntityTypeView::ProxiedIP => key matches Some(key) && key@
                == known_address(realip_remote_addr),
            _ => key is None,
        },
{
    let address = match limit_by {
        LimitEntityType::Global => None,
        LimitEntityType::IP => peer_addr,
        LimitEntityType::ProxiedIP => realip_remote_addr,
        _ => return None,
    };
    match address {
        Some(address) => Some(address.to_owned()),
        None => Some("_".to_owned()),
    }
}

/// The status of the response to a request that was not admitted.
pub open spec fn status(error: LimiterError) -> u16 {
    if error.is_limit() {
        429
    } else {
        500
    }
}

/// Returns the headers to add to the response to an admitted request, or the status of the
/// response to one that was not.
pub fn respond(result: &Result<LimiterHeaders, LimiterError>) -> (response: Result<
    Vec<(&'static str, String)>,
    u16,
>)
    ensures
        match result {
            Ok(headers) => response matches Ok(pairs) && crate::middleware::header_texts(pairs@)
                == crate::middleware::response_headers(headers@),
            Err(error) => response matches Err(code) && code == status(*error),
        },
{
    match result {
        Ok(headers) => Ok(headers_of(headers)),
        Err(error) => {
            let code: u16 = match error {
                LimiterError::Limited => 429,
                LimiterError::MemoryLimitExceeded => 429,
                LimiterError::RedisMemoryExceeded => 429,
                LimiterError::BothMemoryAndRedisMemoryExceeded => 429,
                _ => 500,
            };
            Err(code)
        },
    }
}

} // verus!
