//! Sample-count resolution: a request's cookie outranks its query parameter,
//! which outranks the built-in default.

use vstd::prelude::*;

use crate::digits::{parse_u64, parsed_u64};

verus! {

/// Trials run for a request that names no count at all.
pub const DEFAULT_TOTAL: u64 = 100_000;

/// The query parameter where one was given, the default otherwise.
pub open spec fn query_or_default(query: Option<u64>) -> u64 {
    match query {
        Some(q) => q,
        None => DEFAULT_TOTAL,
    }
}

/// The count a request resolves to: the cookie's value where the cookie is
/// present and parses as a `u64`; otherwise the query parameter where one was
/// given; otherwise the default. A present cookie that does not parse counts
/// as absent.
pub open spec fn resolved_total(cookie: Option<Seq<char>>, query: Option<u64>) -> u64 {
    match cookie {
        Some(s) => match parsed_u64(s) {
            Some(v) => v,
            None => query_or_default(query),
        },
        None => query_or_default(query),
    }
}

/// The view of an optional cookie value.
pub open spec fn cookie_view(cookie: Option<&str>) -> Option<Seq<char>> {
    match cookie {
        Some(s) => Some(s@),
        None => None,
    }
}

/// Resolve the number of trials for one request from the request's cookie
/// value and query parameter.
pub fn resolve_total(cookie: Option<&str>, query: Option<u64>) -> (r: u64)
    ensures
        r == resolved_total(cookie_view(cookie), query),
{
    let from_cookie = match cookie {
        Some(s) => parse_u64(s),
        None => None,
    };
    match from_cookie {
        Some(v) => v,
        None => match query {
            Some(q) => q,
            None => DEFAULT_TOTAL,
        },
    }
}

} // verus!
