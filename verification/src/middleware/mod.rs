//! What a web server does about a limited request.

pub mod actix_web;
pub mod axum;

use crate::limiter::LimiterHeaders;
use crate::text::to_decimal;
use vstd::prelude::*;

verus! {

/// The response headers that tell a client of its limit: names and values.
pub open spec fn response_headers(headers: crate::entity::LimiterHeadersView) -> Seq<
    (Seq<char>, Seq<char>),
> {
    seq![
        ("x-ratelimit-limit"@, crate::text::decimal(headers.limit)),
        ("x-ratelimit-remaining"@, crate::text::decimal(headers.remaining)),
        ("x-ratelimit-reset"@, crate::text::decimal(headers.reset)),
    ]
}

/// Names and values of headers, as texts.
pub open spec fn header_texts(headers: Seq<(&'static str, String)>) -> Seq<
    (Seq<char>, Seq<char>),
> {
    headers.map_values(|header: (&'static str, String)| (header.0@, header.1@))
}

/// Returns the response headers that tell a client of its limit.
pub fn headers_of(headers: &LimiterHeaders) -> (pairs: Vec<(&'static str, String)>)
    ensures
        header_texts(pairs@) == response_headers(headers@),
{
    let mut pairs: Vec<(&'static str, String)> = Vec::new();
    pairs.push(("x-ratelimit-limit", to_decimal(headers.limit)));
    pairs.push(("x-ratelimit-remaining", to_decimal(headers.remaining)));
    pairs.push(("x-ratelimit-reset", to_decimal(headers.reset)));
    pairs
}

} // verus!
