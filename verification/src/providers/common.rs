//! Helpers shared by every provider: HTTP status classification,
//! `Retry-After` parsing and the request shape handed to the transport.
//!
//! Every provider classifies HTTP failures into the same fine-grained
//! [`SearchError`] variants and parses `Retry-After` identically.

use vstd::prelude::*;

use crate::error::SearchError;
use crate::retry::RetryPolicy;
use crate::text::{decimal, parse_u64, parse_u64_spec, push_decimal, push_str, trim, trim_spec};
use crate::time::{Duration, NANOS_PER_SEC};
use crate::urls::{join_url, joined_url, parse_url, parsed_url};
use crate::encoding::{encode_pairs, pairs_text, pairs_view};
use crate::text::push_char;

verus! {

/// HTTP method of a request.
#[derive(Debug, Clone, Copy, PartialEq, Eq, Structural)]
pub enum Method {
    /// `GET`.
    Get,
    /// `POST`.
    Post,
}

/// A fully shaped HTTP request: the transport only has to send it.
#[derive(Debug, Clone)]
pub struct HttpRequest {
    /// Request method.
    pub method: Method,
    /// Absolute URL, query string included.
    pub url: String,
    /// Header name/value pairs, in order.
    pub headers: Vec<(String, String)>,
    /// Request body, if any (its `Content-Type` is among the headers).
    pub body: Option<String>,
}

/// The text view of a header list.
pub open spec fn headers_view(h: Seq<(String, String)>) -> Seq<(Seq<char>, Seq<char>)> {
    h.map_values(|p: (String, String)| (p.0@, p.1@))
}

/// Appends a header built from two string slices.
pub fn push_header(headers: &mut Vec<(String, String)>, name: &str, value: &str)
    ensures
        headers_view(final(headers)@) == headers_view(old(headers)@).push((name@, value@)),
{
    headers.push((name.to_owned(), value.to_owned()));
    assert(headers_view(headers@) =~= headers_view(old(headers)@).push((name@, value@)));
}

/// The text of an optional string slice.
pub open spec fn opt_text(s: Option<&str>) -> Option<Seq<char>> {
    match s {
        Some(t) => Some(t@),
        None => None,
    }
}

/// `2xx`.
pub open spec fn success_status(status: u16) -> bool {
    200 <= status <= 299
}

/// `StatusCode::is_success`.
pub fn is_success(status: u16) -> (b: bool)
    ensures
        b == success_status(status),
{
    200 <= status && status <= 299
}

/// Seconds announced by a `Retry-After` header (the numeric form only; an
/// HTTP-date or any other text yields `None`).
pub open spec fn retry_after_secs(header: Option<Seq<char>>) -> Option<u64> {
    match header {
        Some(h) => parse_u64_spec(trim_spec(h)),
        None => None,
    }
}

/// A `Retry-After` hint as a span of time.
pub open spec fn retry_after_matches(d: Option<Duration>, header: Option<Seq<char>>) -> bool {
    match retry_after_secs(header) {
        Some(secs) => d matches Some(x) && x@ == secs * NANOS_PER_SEC,
        None => d is None,
    }
}

/// Parses the `Retry-After` header (given as text, when it is valid
/// visible ASCII) into a span of time. Only the seconds form is handled —
/// it is the format every provider in scope actually uses.
pub fn parse_retry_after(header: Option<&str>) -> (d: Option<Duration>)
    ensures
        retry_after_matches(d, opt_text(header)),
{
    match header {
        Some(h) => {
            let t = trim(h);
            match parse_u64(t.as_str()) {
                Some(secs) => Some(Duration::from_secs(secs)),
                None => None,
            }
        },
        None => None,
    }
}

/// The error a non-success response is classified as: `429` is rate
/// limiting (with its `Retry-After` hint), `401`/`403` an authentication
/// failure, `5xx` a server error, anything else a transport error
/// "unexpected HTTP <code>".
pub open spec fn classified(
    e: SearchError,
    provider: &'static str,
    status: u16,
    retry_after: Option<Seq<char>>,
) -> bool {
    if status == 429 {
        e matches SearchError::RateLimited { provider: p, retry_after: d } && p == provider
            && retry_after_matches(d, retry_after)
    } else if status == 401 || status == 403 {
        e == SearchError::AuthFailed { provider, status }
    } else if 500 <= status <= 599 {
        e == SearchError::ServerError { provider, status }
    } else {
        e matches SearchError::Transport { provider: p, message } && p == provider && message@
            == "unexpected HTTP "@ + decimal(status as nat)
    }
}

/// A classified failure names the provider that answered; it is worth
/// retrying exactly when the status is `429` or `5xx`; and it reports the
/// status it came from whenever it carries one (`429`, `401`, `403`,
/// `5xx`).
pub proof fn lemma_classified_status(e: SearchError, provider: &'static str, status: u16, retry_after: Option<Seq<char>>)
    requires
        classified(e, provider, status, retry_after),
    ensures
        crate::error::error_provider(e) == Some(provider@),
        crate::error::retryable(e) == (status == 429 || 500 <= status <= 599),
        crate::error::error_status(e) is Some ==> crate::error::error_status(e) == Some(status),
        (crate::error::error_status(e) is Some) == (status == 429 || status == 401 || status == 403
            || 500 <= status <= 599),
{
}

/// Classifies a non-success HTTP response into the appropriate
/// [`SearchError`] variant.
pub fn classify_status(provider: &'static str, status: u16, retry_after: Option<&str>) -> (e:
    SearchError)
    ensures
        classified(e, provider, status, opt_text(retry_after)),
{
    if status == 429 {
        SearchError::RateLimited { provider, retry_after: parse_retry_after(retry_after) }
    } else if status == 401 || status == 403 {
        SearchError::AuthFailed { provider, status }
    } else if 500 <= status && status <= 599 {
        SearchError::ServerError { provider, status }
    } else {
        let mut message = String::new();
        push_str(&mut message, "unexpected HTTP ");
        push_decimal(&mut message, status as u64);
        SearchError::Transport { provider, message }
    }
}

/// The outcome of a response status: `None` for `2xx`, the classified
/// error otherwise.
pub fn check_status(provider: &'static str, status: u16, retry_after: Option<&str>) -> (r: Option<
    SearchError,
>)
    ensures
        success_status(status) ==> r is None,
        !success_status(status) ==> (r matches Some(e) && classified(
            e,
            provider,
            status,
            opt_text(retry_after),
        )),
{
    if is_success(status) {
        None
    } else {
        Some(classify_status(provider, status, retry_after))
    }
}

/// Maps a transport-layer failure (described by `message`) to a
/// [`SearchError`].
pub fn classify_transport(provider: &'static str, message: &str) -> (e: SearchError)
    ensures
        e matches SearchError::Transport { provider: p, message: m } && p == provider && m@
            == message@,
{
    SearchError::Transport { provider, message: message.to_owned() }
}

/// Maps a deserialisation failure (described by `message`) to
/// [`SearchError::InvalidResponse`].
pub fn classify_parse(provider: &'static str, message: &str) -> (e: SearchError)
    ensures
        e matches SearchError::InvalidResponse { provider: p, message: m } && p == provider
            && m@ == message@,
{
    SearchError::InvalidResponse { provider, message: message.to_owned() }
}

/// The configured retry policy, or the production default.
pub fn resolve_retry(retry: Option<RetryPolicy>) -> (p: RetryPolicy)
    ensures
        retry matches Some(r) ==> p == r,
        retry is None ==> p.max_retries == 3 && p.base_delay@ == 500_000_000
            && p.max_delay@ == 10_000_000_000,
{
    match retry {
        Some(r) => r,
        None => RetryPolicy::production(),
    }
}

/// The error every provider reports for a blank query.
pub open spec fn empty_query_error(e: SearchError) -> bool {
    e matches SearchError::Config { message } && message@ == "search query is empty"@
}

/// The error every provider reports for a blank query.
pub fn empty_query() -> (e: SearchError)
    ensures
        empty_query_error(e),
{
    SearchError::Config { message: "search query is empty".to_owned() }
}

/// `r` holds the value of `u`, or a configuration error whose message is
/// `prefix` followed by the error text of `u`.
pub open spec fn config_result(r: Result<String, SearchError>, u: Result<Seq<char>, Seq<char>>, prefix: Seq<char>) -> bool {
    match u {
        Ok(x) => r matches Ok(s) && s@ == x,
        Err(m) => r matches Err(SearchError::Config { message }) && message@ == prefix + m,
    }
}

/// A configuration error whose message is `prefix` followed by `detail`.
pub fn config_error(prefix: &str, detail: &str) -> (e: SearchError)
    ensures
        e matches SearchError::Config { message } && message@ == prefix@ + detail@,
{
    let mut message = String::new();
    push_str(&mut message, prefix);
    push_str(&mut message, detail);
    SearchError::Config { message }
}

/// Parses a provider base URL; a parse failure becomes a configuration
/// error `prefix` + the parser's message.
pub fn parse_base_url(url: &str, prefix: &str) -> (r: Result<String, SearchError>)
    ensures
        config_result(r, parsed_url(url@), prefix@),
{
    match parse_url(url) {
        Ok(u) => Ok(u),
        Err(m) => Err(config_error(prefix, m.as_str())),
    }
}

/// Resolves `path` against `base`; a failure becomes a configuration error
/// `prefix` + the resolver's message.
pub fn join_endpoint(base: &str, path: &str, prefix: &str) -> (r: Result<String, SearchError>)
    ensures
        config_result(r, joined_url(base@, path@), prefix@),
{
    match join_url(base, path) {
        Ok(u) => Ok(u),
        Err(m) => Err(config_error(prefix, m.as_str())),
    }
}

/// `url?pairs` with the pairs form-encoded.
pub open spec fn with_query(url: Seq<char>, pairs: Seq<(Seq<char>, Seq<char>)>) -> Seq<char> {
    url + seq!['?'] + pairs_text(pairs)
}

/// Appends `?` and the form-encoded pairs to a URL that has no query yet.
pub fn add_query(url: String, pairs: &Vec<(String, String)>) -> (r: String)
    ensures
        r@ == with_query(url@, pairs_view(pairs@)),
{
    let encoded = encode_pairs(pairs);
    let mut r = url;
    push_char(&mut r, '?');
    push_str(&mut r, encoded.as_str());
    assert(r@ =~= with_query(url@, pairs_view(pairs@)));
    r
}

/// Appends a pair built from two string slices.
pub fn push_pair(pairs: &mut Vec<(String, String)>, name: &str, value: &str)
    ensures
        pairs_view(final(pairs)@) == pairs_view(old(pairs)@).push((name@, value@)),
{
    pairs.push((name.to_owned(), value.to_owned()));
    assert(pairs_view(pairs@) =~= pairs_view(old(pairs)@).push((name@, value@)));
}

} // verus!
