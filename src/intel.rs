//! Normalising request metadata into a client address and a user-agent.

use vstd::prelude::*;

use axum::http::HeaderMap;

verus! {

/// `http::HeaderMap`, the request headers, carried opaquely.
#[verifier::external_type_specification]
#[verifier::external_body]
#[verifier::reject_recursive_types(T)]
pub struct ExHeaderMap<T>(axum::http::HeaderMap<T>);

/// `http::HeaderValue`, one header's raw value, carried opaquely.
#[verifier::external_type_specification]
#[verifier::external_body]
pub struct ExHeaderValue(axum::http::HeaderValue);

/// The text of the first value stored under the header `name` in `headers`,
/// when there is one and it is valid header text.
pub uninterp spec fn header_text_of(headers: HeaderMap, name: Seq<char>) -> Option<Seq<char>>;

/// Relies on `http::HeaderMap::get`, a case-insensitive lookup of the first
/// value stored under a header name (an invalid name finds nothing), and
/// `http::HeaderValue::to_str`, which yields that value as text when it holds
/// only visible ASCII.
#[verifier::external_body]
fn header_text(headers: &HeaderMap, name: &str) -> (r: Option<String>)
    ensures
        match r {
            Some(s) => header_text_of(*headers, name@) == Some(s@),
            None => header_text_of(*headers, name@) is None,
        },
{
    headers.get(name).and_then(|v| v.to_str().ok()).map(|s| s.to_string())
}

/// The user-agent a request is classified under: the header text when
/// present, the placeholder `"Unknown"` otherwise.
pub open spec fn agent_text(header: Option<Seq<char>>) -> Seq<char> {
    match header {
        Some(s) => s,
        None => "Unknown"@,
    }
}

/// The user-agent text for a header value that may be absent.
pub fn user_agent_or_unknown(header: Option<&str>) -> (r: String)
    ensures
        r@ == agent_text(
            match header {
                Some(s) => Some(s@),
                None => None,
            },
        ),
{
    match header {
        Some(s) => String::from_str(s),
        None => String::from_str("Unknown"),
    }
}

/// Extracts `(client_ip, user_agent)` from a request's headers and the
/// textual form of its peer address. Never fails: a missing or unreadable
/// user-agent becomes `"Unknown"`.
pub fn extract_intel(headers: &HeaderMap, client_ip: String) -> (r: (String, String))
    ensures
        r.0@ == client_ip@,
        r.1@ == agent_text(header_text_of(*headers, "user-agent"@)),
{
    let header = header_text(headers, "user-agent");
    let agent = match &header {
        Some(s) => user_agent_or_unknown(Some(s.as_str())),
        None => user_agent_or_unknown(None),
    };
    (client_ip, agent)
}

} // verus!
