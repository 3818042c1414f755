//! What the middlewares make of a request and of the limiter's answer.

use crate::entity::{LimitEntityType, LimiterHeaders};
use crate::errors::LimiterError;
use vstd::prelude::*;

verus! {

/// Behind a proxy, the client is the whole first element of the comma-separated list, without the
/// white space around it, whatever other characters stand in it.
pub proof fn client_is_the_first_element(
    peer: Seq<char>,
    list: &str,
    ahead: Seq<char>,
    address: Seq<char>,
    behind: Seq<char>,
    rest: Seq<char>,
)
    requires
        crate::laws::texts::blank(ahead),
        crate::laws::texts::tight(address),
        crate::laws::texts::blank(behind),
        !address.contains(','),
        list@ == ahead + address + behind || list@ == ahead + address + behind + seq![','] + rest,
    ensures
        crate::middleware::axum::client(peer, Some(list)) == address,
        crate::middleware::axum::client(peer, None) == peer,
{
    let first = ahead + address + behind;
    assert(!first.contains(',')) by {
        assert forall|i: int| 0 <= i < first.len() implies first[i] != ',' by {
            if i < ahead.len() {
                assert(first[i] == ahead[i]);
            } else if i < ahead.len() + address.len() {
                assert(first[i] == address[i - ahead.len()]);
                assert(address.contains(address[i - ahead.len()]));
            } else {
                assert(first[i] == behind[i - ahead.len() - address.len()]);
            }
        }
    }
    crate::laws::texts::part_before_is_up_to_the_first(first, ',', rest);
    crate::laws::texts::trimming_takes_white_space_only(ahead, address, behind);
}

/// Axum: a request behind a proxy counts for its client, the whole first element of the list.
pub proof fn axum_counts_for_the_client(
    peer_ip: String,
    list: &str,
    key: Result<String, (u16, &'static str)>,
    ahead: Seq<char>,
    address: Seq<char>,
    behind: Seq<char>,
    rest: Seq<char>,
)
    requires
        call_ensures(
            crate::middleware::axum::entity_key,
            (&LimitEntityType::ProxiedIP, peer_ip, Some(list)),
            key,
        ),
        crate::laws::texts::blank(ahead),
        crate::laws::texts::tight(address),
        crate::laws::texts::blank(behind),
        !address.contains(','),
        list@ == ahead + address + behind || list@ == ahead + address + behind + seq![','] + rest,
    ensures
        key matches Ok(key) && key@ == address,
{
    client_is_the_first_element(peer_ip@, list, ahead, address, behind, rest);
}

/// Axum: every other request counts for all together, for its peer, or for nobody, by the way in
/// which the bucket tells requests apart. A client that no list names is its peer.
pub proof fn axum_counts_by_the_bucket(
    limit_by: LimitEntityType,
    peer_ip: String,
    forwarded_for: Option<&str>,
    key: Result<String, (u16, &'static str)>,
)
    requires
        call_ensures(
            crate::middleware::axum::entity_key,
            (&limit_by, peer_ip, forwarded_for),
            key,
        ),
    ensures
        match limit_by {
            LimitEntityType::Global => key matches Ok(key) && key@ == seq!['_'],
            LimitEntityType::IP => key matches Ok(key) && key@ == peer_ip@,
            LimitEntityType::ProxiedIP => {
                &&& key is Ok
                &&& forwarded_for is None ==> key->Ok_0@ == peer_ip@
            },
            _ => key matches Err((code, message)) && code == 500 && message@
                == "Rate limiter misconfigured"@,
        },
{
    reveal_strlit("_");
    assert("_"@ =~= seq!['_']);
}

/// Actix Web: a request counts for all together, for the address of its peer, or for that of its
/// client; one without a known address counts with all such requests; in other ways requests are
/// not limited.
pub proof fn actix_counts_by_the_bucket(
    limit_by: LimitEntityType,
    peer: Option<&str>,
    client: Option<&str>,
    key: Option<String>,
)
    requires
        call_ensures(crate::middleware::actix_web::entity_key, (&limit_by, peer, client), key),
    ensures
        match limit_by {
            LimitEntityType::Global => key matches Some(key) && key@ == seq!['_'],
            LimitEntityType::IP => key matches Some(key) && key@ == (match peer {
                Some(address) => address@,
                None => seq!['_'],
            }),
            LimitEntityType::ProxiedIP => key matches Some(key) && key@ == (match client {
                Some(address) => address@,
                None => seq!['_'],
            }),
            _ => key is None,
        },
{
    reveal_strlit("_");
    assert("_"@ =~= seq!['_']);
}

/// Actix Web can be set up with buckets that limit globally or by the address of the peer.
pub proof fn actix_supports_two_ways(limit_by: LimitEntityType, yes: bool)
    requires
        call_ensures(crate::middleware::actix_web::supports, (&limit_by,), yes),
    ensures
        yes <==> match limit_by {
            LimitEntityType::Global => true,
            LimitEntityType::IP => true,
            LimitEntityType::ProxiedIP => false,
            LimitEntityType::ID => false,
            LimitEntityType::Custom(_) => false,
        },
{
}

/// Whether these are the three headers that tell of a limit: what they are called, and in decimal
/// the limit, what remains of it, and when it is refilled.
pub open spec fn tell_of_the_limit(
    pairs: Seq<(&'static str, String)>,
    headers: LimiterHeaders,
) -> bool {
    &&& pairs.len() == 3
    &&& pairs[0].0@ == "x-ratelimit-limit"@
    &&& pairs[1].0@ == "x-ratelimit-remaining"@
    &&& pairs[2].0@ == "x-ratelimit-reset"@
    &&& crate::text::unsigned(pairs[0].1@) == Some(headers.limit as nat)
    &&& crate::text::unsigned(pairs[1].1@) == Some(headers.remaining as nat)
    &&& crate::text::unsigned(pairs[2].1@) == Some(headers.reset as nat)
    &&& pairs[0].1@ == crate::text::decimal(headers.limit as nat)
    &&& pairs[1].1@ == crate::text::decimal(headers.remaining as nat)
    &&& pairs[2].1@ == crate::text::decimal(headers.reset as nat)
}

/// Three headers tell a client of its limit.
pub proof fn three_headers_are_made(
    headers: LimiterHeaders,
    pairs: Vec<(&'static str, String)>,
)
    requires
        call_ensures(crate::middleware::headers_of, (&headers,), pairs),
    ensures
        tell_of_the_limit(pairs@, headers),
{
    header_texts_are_the_pairs(pairs@);
    crate::laws::texts::numbers_are_written_in_decimal(headers.limit as nat);
    crate::laws::texts::numbers_are_written_in_decimal(headers.remaining as nat);
    crate::laws::texts::numbers_are_written_in_decimal(headers.reset as nat);
}

/// The texts of headers are those of the pairs, one by one.
proof fn header_texts_are_the_pairs(pairs: Seq<(&'static str, String)>)
    ensures
        crate::middleware::header_texts(pairs).len() == pairs.len(),
        forall|i: int|
            0 <= i < pairs.len() ==> #[trigger] crate::middleware::header_texts(pairs)[i] == (
                pairs[i].0@,
                pairs[i].1@,
            ),
{
    if pairs.len() == 3 {
        assert(crate::middleware::header_texts(pairs)[0] == (pairs[0].0@, pairs[0].1@));
        assert(crate::middleware::header_texts(pairs)[1] == (pairs[1].0@, pairs[1].1@));
        assert(crate::middleware::header_texts(pairs)[2] == (pairs[2].0@, pairs[2].1@));
    }
}

/// Actix Web: an admitted request is answered with the three headers. One that is limited, or for
/// which there is no room, is answered as one too many; any other failure as the server's.
pub proof fn actix_answers(
    result: Result<LimiterHeaders, LimiterError>,
    response: Result<Vec<(&'static str, String)>, u16>,
)
    requires
        call_ensures(crate::middleware::actix_web::respond, (&result,), response),
    ensures
        match result {
            Ok(headers) => response matches Ok(pairs) && tell_of_the_limit(pairs@, headers),
            Err(error) => response == Err::<Vec<(&'static str, String)>, u16>(
                if error is Limited || error is MemoryLimitExceeded || error is RedisMemoryExceeded
                    || error is BothMemoryAndRedisMemoryExceeded {
                    429
                } else {
                    500
                },
            ),
        },
{
    if let Ok(headers) = result {
        header_texts_are_the_pairs(response->Ok_0@);
        crate::laws::texts::numbers_are_written_in_decimal(headers.limit as nat);
        crate::laws::texts::numbers_are_written_in_decimal(headers.remaining as nat);
        crate::laws::texts::numbers_are_written_in_decimal(headers.reset as nat);
    }
}

/// Axum: an admitted request is answered with the three headers. One that is limited is answered
/// as one too many; one for which there is no room by the server's being overloaded; any other
/// failure as the server's.
pub proof fn axum_answers(
    result: Result<LimiterHeaders, LimiterError>,
    response: Result<Vec<(&'static str, String)>, (u16, &'static str)>,
)
    requires
        call_ensures(crate::middleware::axum::respond, (&result,), response),
    ensures
        match result {
            Ok(headers) => response matches Ok(pairs) && tell_of_the_limit(pairs@, headers),
            Err(error) => response matches Err((code, message)) && if error is Limited {
                code == 429 && message@ == "Rate limit exceeded"@
            } else if error is MemoryLimitExceeded || error is RedisMemoryExceeded
                || error is BothMemoryAndRedisMemoryExceeded {
                code == 503 && message@ == "Service temporarily overloaded"@
            } else {
                code == 500 && message@ == "Internal server error"@
            },
        },
{
    if let Ok(headers) = result {
        header_texts_are_the_pairs(response->Ok_0@);
        crate::laws::texts::numbers_are_written_in_decimal(headers.limit as nat);
        crate::laws::texts::numbers_are_written_in_decimal(headers.remaining as nat);
        crate::laws::texts::numbers_are_written_in_decimal(headers.reset as nat);
    }
}

} // verus!
