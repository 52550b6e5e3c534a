//! Request shaping for the `DuckDuckGo` provider: the rotating user-agent
//! pool, the form-encoded POST requests against the HTML and lite
//! endpoints, and the CAPTCHA-aware reading of their answers.

use vstd::prelude::*;

use super::captcha::{captcha_page, looks_like_captcha};
use super::params::{
    accept_header, accept_language, accept_language_spec, region_code, region_code_spec,
    safesearch_token, safesearch_token_spec, time_range_token, time_range_token_spec,
};
use super::PROVIDER_ID;
use crate::encoding::{encode_pairs, pairs_text, pairs_view};
use crate::error::SearchError;
use crate::providers::common::{
    classified, classify_status, headers_view, is_success, opt_text, push_header, push_pair,
    success_status, HttpRequest, Method,
};
use crate::query::SearchQuery;
use crate::text::{decimal, decimal_string, push_str};

verus! {

/// `DuckDuckGo` returns roughly 25–30 results per page.
pub const RESULTS_PER_PAGE: u32 = 25;

/// Number of user agents in the rotation pool.
pub const USER_AGENT_COUNT: usize = 10;

/// The wall clock of the standard library.
#[verifier::external_type_specification]
#[verifier::external_body]
pub struct ExSystemTime(std::time::SystemTime);

/// The `i`-th user agent of the rotation pool (Chrome 121+, Firefox 123+,
/// Safari 17+, Edge 121+).
pub open spec fn user_agent_spec(i: int) -> Seq<char> {
    if i == 0 {
        "Mozilla/5.0 (Windows NT 10.0; Win64; x64) AppleWebKit/537.36 (KHTML, like Gecko) Chrome/121.0.0.0 Safari/537.36"@
    } else if i == 1 {
        "Mozilla/5.0 (Windows NT 10.0; Win64; x64) AppleWebKit/537.36 (KHTML, like Gecko) Chrome/122.0.0.0 Safari/537.36"@
    } else if i == 2 {
        "Mozilla/5.0 (Macintosh; Intel Mac OS X 10_15_7) AppleWebKit/537.36 (KHTML, like Gecko) Chrome/122.0.0.0 Safari/537.36"@
    } else if i == 3 {
        "Mozilla/5.0 (X11; Linux x86_64) AppleWebKit/537.36 (KHTML, like Gecko) Chrome/123.0.0.0 Safari/537.36"@
    } else if i == 4 {
        "Mozilla/5.0 (Windows NT 10.0; Win64; x64; rv:123.0) Gecko/20100101 Firefox/123.0"@
    } else if i == 5 {
        "Mozilla/5.0 (X11; Linux x86_64; rv:122.0) Gecko/20100101 Firefox/122.0"@
    } else if i == 6 {
        "Mozilla/5.0 (Macintosh; Intel Mac OS X 14.2; rv:123.0) Gecko/20100101 Firefox/123.0"@
    } else if i == 7 {
        "Mozilla/5.0 (Macintosh; Intel Mac OS X 10_15_7) AppleWebKit/605.1.15 (KHTML, like Gecko) Version/17.2 Safari/605.1.15"@
    } else if i == 8 {
        "Mozilla/5.0 (Windows NT 10.0; Win64; x64) AppleWebKit/537.36 (KHTML, like Gecko) Chrome/121.0.0.0 Safari/537.36 Edg/121.0.0.0"@
    } else {
        "Mozilla/5.0 (iPhone; CPU iPhone OS 17_2 like Mac OS X) AppleWebKit/605.1.15 (KHTML, like Gecko) Version/17.2 Mobile/15E148 Safari/604.1"@
    }
}

/// A member of the rotation pool.
pub open spec fn in_pool(ua: Seq<char>) -> bool {
    exists|i: int| 0 <= i < USER_AGENT_COUNT && ua == #[trigger] user_agent_spec(i)
}

/// The `i`-th user agent of the rotation pool.
pub fn user_agent_at(i: usize) -> (s: &'static str)
    requires
        i < USER_AGENT_COUNT,
    ensures
        s@ == user_agent_spec(i as int),
{
    if i == 0 {
        "Mozilla/5.0 (Windows NT 10.0; Win64; x64) AppleWebKit/537.36 (KHTML, like Gecko) Chrome/121.0.0.0 Safari/537.36"
    } else if i == 1 {
        "Mozilla/5.0 (Windows NT 10.0; Win64; x64) AppleWebKit/537.36 (KHTML, like Gecko) Chrome/122.0.0.0 Safari/537.36"
    } else if i == 2 {
        "Mozilla/5.0 (Macintosh; Intel Mac OS X 10_15_7) AppleWebKit/537.36 (KHTML, like Gecko) Chrome/122.0.0.0 Safari/537.36"
    } else if i == 3 {
        "Mozilla/5.0 (X11; Linux x86_64) AppleWebKit/537.36 (KHTML, like Gecko) Chrome/123.0.0.0 Safari/537.36"
    } else if i == 4 {
        "Mozilla/5.0 (Windows NT 10.0; Win64; x64; rv:123.0) Gecko/20100101 Firefox/123.0"
    } else if i == 5 {
        "Mozilla/5.0 (X11; Linux x86_64; rv:122.0) Gecko/20100101 Firefox/122.0"
    } else if i == 6 {
        "Mozilla/5.0 (Macintosh; Intel Mac OS X 14.2; rv:123.0) Gecko/20100101 Firefox/123.0"
    } else if i == 7 {
        "Mozilla/5.0 (Macintosh; Intel Mac OS X 10_15_7) AppleWebKit/605.1.15 (KHTML, like Gecko) Version/17.2 Safari/605.1.15"
    } else if i == 8 {
        "Mozilla/5.0 (Windows NT 10.0; Win64; x64) AppleWebKit/537.36 (KHTML, like Gecko) Chrome/121.0.0.0 Safari/537.36 Edg/121.0.0.0"
    } else {
        "Mozilla/5.0 (iPhone; CPU iPhone OS 17_2 like Mac OS X) AppleWebKit/605.1.15 (KHTML, like Gecko) Version/17.2 Mobile/15E148 Safari/604.1"
    }
}

/// The whole rotation pool, in order.
pub fn user_agents() -> (v: Vec<&'static str>)
    ensures
        v@.len() == USER_AGENT_COUNT,
        forall|i: int| 0 <= i < USER_AGENT_COUNT ==> (#[trigger] v@[i])@ == user_agent_spec(i),
{
    let mut v: Vec<&'static str> = Vec::new();
    let mut i: usize = 0;
    while i < USER_AGENT_COUNT
        invariant
            0 <= i <= USER_AGENT_COUNT,
            v@.len() == i,
            forall|j: int| 0 <= j < i ==> (#[trigger] v@[j])@ == user_agent_spec(j),
        decreases USER_AGENT_COUNT - i,
    {
        v.push(user_agent_at(i));
        i += 1;
    }
    v
}

/// The user agent a clock reading selects: the sub-second nanoseconds
/// modulo the pool size.
pub fn user_agent_for(nanos: u32) -> (s: &'static str)
    ensures
        s@ == user_agent_spec((nanos as usize % USER_AGENT_COUNT) as int),
        in_pool(s@),
{
    let i = nanos as usize % USER_AGENT_COUNT;
    let s = user_agent_at(i);
    assert(s@ == user_agent_spec(i as int));
    s
}

/// Reads the wall clock (`SystemTime::now`). Nothing is promised of the
/// reading.
#[verifier::external_body]
fn system_now() -> std::time::SystemTime {
    std::time::SystemTime::now()
}

/// The sub-second nanoseconds of the time elapsed since the Unix epoch
/// (`SystemTime::duration_since(UNIX_EPOCH)`, read by
/// `Duration::subsec_nanos`, which is documented to be below one billion);
/// `None` for a time before the epoch.
#[verifier::external_body]
fn subsec_nanos_since_epoch(t: &std::time::SystemTime) -> (r: Option<u32>)
    ensures
        r matches Some(n) ==> n < 1_000_000_000,
{
    t.duration_since(std::time::UNIX_EPOCH).ok().map(|d| d.subsec_nanos())
}

/// Picks a user agent from the rotation pool using the wall clock's
/// nanoseconds (zero when the clock reads before the epoch).
pub fn pick_user_agent() -> (s: &'static str)
    ensures
        in_pool(s@),
{
    let now = system_now();
    let nanos = match subsec_nanos_since_epoch(&now) {
        Some(n) => n,
        None => 0,
    };
    user_agent_for(nanos)
}

/// Form fields of a request to the html endpoint at result `offset`: the
/// query, an empty `b`, region and safe-search; the pagination fields when
/// `offset > 0`; the time range when one is set.
pub open spec fn html_form(q: SearchQuery, offset: u32) -> Seq<(Seq<char>, Seq<char>)> {
    let base = seq![
        ("q"@, q.query@),
        ("b"@, ""@),
        ("kl"@, region_code_spec(q)),
        ("safe"@, safesearch_token_spec(q.safesearch)),
    ];
    let paged = if offset > 0 {
        base + seq![
            ("s"@, decimal(offset as nat)),
            ("dc"@, decimal(offset as nat)),
            ("v"@, "l"@),
            ("o"@, "json"@),
            ("api"@, "d.js"@),
        ]
    } else {
        base
    };
    match q.time_range {
        Some(t) => paged.push(("df"@, time_range_token_spec(t))),
        None => paged,
    }
}

/// Form fields of a request to the lite endpoint.
pub open spec fn lite_form(q: SearchQuery) -> Seq<(Seq<char>, Seq<char>)> {
    let base = seq![
        ("q"@, q.query@),
        ("kl"@, region_code_spec(q)),
        ("safe"@, safesearch_token_spec(q.safesearch)),
    ];
    match q.time_range {
        Some(t) => base.push(("df"@, time_range_token_spec(t))),
        None => base,
    }
}

/// Headers of a request to the html endpoint.
pub open spec fn html_headers(ua: Seq<char>, q: SearchQuery) -> Seq<(Seq<char>, Seq<char>)> {
    seq![
        ("User-Agent"@, ua),
        ("Accept"@, "text/html,application/xhtml+xml,application/xml;q=0.9,*/*;q=0.8"@),
        ("Accept-Language"@, accept_language_spec(q)),
        ("Referer"@, "https://duckduckgo.com/"@),
        ("DNT"@, "1"@),
        ("Upgrade-Insecure-Requests"@, "1"@),
        ("Content-Type"@, "application/x-www-form-urlencoded"@),
    ]
}

/// Headers of a request to the lite endpoint.
pub open spec fn lite_headers(ua: Seq<char>, q: SearchQuery) -> Seq<(Seq<char>, Seq<char>)> {
    seq![
        ("User-Agent"@, ua),
        ("Accept"@, "text/html,application/xhtml+xml,application/xml;q=0.9,*/*;q=0.8"@),
        ("Accept-Language"@, accept_language_spec(q)),
        ("Referer"@, "https://lite.duckduckgo.com/"@),
        ("Content-Type"@, "application/x-www-form-urlencoded"@),
    ]
}

/// A form-encoded `POST` of `form` to `endpoint` with `headers`.
pub open spec fn form_post(
    req: HttpRequest,
    endpoint: Seq<char>,
    headers: Seq<(Seq<char>, Seq<char>)>,
    form: Seq<(Seq<char>, Seq<char>)>,
) -> bool {
    &&& req.method == Method::Post
    &&& req.url@ == endpoint
    &&& headers_view(req.headers@) == headers
    &&& req.body matches Some(b) && b@ == pairs_text(form)
}

fn common_form(v: &mut Vec<(String, String)>, query: &SearchQuery)
    ensures
        pairs_view(final(v)@) == pairs_view(old(v)@) + seq![
            ("kl"@, region_code_spec(*query)),
            ("safe"@, safesearch_token_spec(query.safesearch)),
        ],
{
    let kl = region_code(query);
    push_pair(v, "kl", kl.as_str());
    push_pair(v, "safe", safesearch_token(query.safesearch));
}

fn html_form_exec(query: &SearchQuery, offset: u32) -> (v: Vec<(String, String)>)
    ensures
        pairs_view(v@) == html_form(*query, offset),
{
    let mut v: Vec<(String, String)> = Vec::new();
    push_pair(&mut v, "q", query.query.as_str());
    push_pair(&mut v, "b", "");
    common_form(&mut v, query);
    if offset > 0 {
        let off = decimal_string(offset as u64);
        push_pair(&mut v, "s", off.as_str());
        push_pair(&mut v, "dc", off.as_str());
        push_pair(&mut v, "v", "l");
        push_pair(&mut v, "o", "json");
        push_pair(&mut v, "api", "d.js");
    }
    match query.time_range {
        Some(t) => push_pair(&mut v, "df", time_range_token(t)),
        None => {},
    }
    assert(pairs_view(v@) =~= html_form(*query, offset));
    v
}

fn lite_form_exec(query: &SearchQuery) -> (v: Vec<(String, String)>)
    ensures
        pairs_view(v@) == lite_form(*query),
{
    let mut v: Vec<(String, String)> = Vec::new();
    push_pair(&mut v, "q", query.query.as_str());
    common_form(&mut v, query);
    match query.time_range {
        Some(t) => push_pair(&mut v, "df", time_range_token(t)),
        None => {},
    }
    assert(pairs_view(v@) =~= lite_form(*query));
    v
}

fn browser_headers(h: &mut Vec<(String, String)>, user_agent: &str, query: &SearchQuery)
    ensures
        headers_view(final(h)@) == headers_view(old(h)@) + seq![
            ("User-Agent"@, user_agent@),
            ("Accept"@, "text/html,application/xhtml+xml,application/xml;q=0.9,*/*;q=0.8"@),
            ("Accept-Language"@, accept_language_spec(*query)),
        ],
{
    push_header(h, "User-Agent", user_agent);
    push_header(h, "Accept", accept_header());
    let lang = accept_language(query);
    push_header(h, "Accept-Language", lang.as_str());
}

/// The request for the html endpoint at result `offset`, sent with
/// `user_agent`.
pub fn html_request(endpoint: &str, query: &SearchQuery, offset: u32, user_agent: &str) -> (req:
    HttpRequest)
    ensures
        form_post(req, endpoint@, html_headers(user_agent@, *query), html_form(*query, offset)),
{
    let form = html_form_exec(query, offset);
    let mut headers: Vec<(String, String)> = Vec::new();
    browser_headers(&mut headers, user_agent, query);
    push_header(&mut headers, "Referer", "https://duckduckgo.com/");
    push_header(&mut headers, "DNT", "1");
    push_header(&mut headers, "Upgrade-Insecure-Requests", "1");
    push_header(&mut headers, "Content-Type", "application/x-www-form-urlencoded");
    assert(headers_view(headers@) =~= html_headers(user_agent@, *query));
    HttpRequest {
        method: Method::Post,
        url: endpoint.to_owned(),
        headers,
        body: Some(encode_pairs(&form)),
    }
}

/// The request for the lite endpoint, sent with `user_agent`.
pub fn lite_request(endpoint: &str, query: &SearchQuery, user_agent: &str) -> (req: HttpRequest)
    ensures
        form_post(req, endpoint@, lite_headers(user_agent@, *query), lite_form(*query)),
{
    let form = lite_form_exec(query);
    let mut headers: Vec<(String, String)> = Vec::new();
    browser_headers(&mut headers, user_agent, query);
    push_header(&mut headers, "Referer", "https://lite.duckduckgo.com/");
    push_header(&mut headers, "Content-Type", "application/x-www-form-urlencoded");
    assert(headers_view(headers@) =~= lite_headers(user_agent@, *query));
    HttpRequest {
        method: Method::Post,
        url: endpoint.to_owned(),
        headers,
        body: Some(encode_pairs(&form)),
    }
}

/// The error a response status means, before its body is read: `202` is
/// `DuckDuckGo`'s soft-block signal and means a challenge; any other `2xx`
/// is none; any other status is the classified status error.
pub fn finalize_status(status: u16, retry_after: Option<&str>) -> (r: Option<SearchError>)
    ensures
        status == 202 ==> r == Some(SearchError::CaptchaDetected { provider: PROVIDER_ID }),
        success_status(status) && status != 202 ==> r is None,
        !success_status(status) ==> (r matches Some(e) && classified(
            e,
            PROVIDER_ID,
            status,
            opt_text(retry_after),
        )),
{
    if status == 202 {
        Some(SearchError::CaptchaDetected { provider: PROVIDER_ID })
    } else if is_success(status) {
        None
    } else {
        Some(classify_status(PROVIDER_ID, status, retry_after))
    }
}

/// What reading a successful answer's body gives: the body; a transport
/// error "failed to read body: …" when it could not be read (`Err` with
/// the reader's message); [`SearchError::CaptchaDetected`] for a challenge
/// page.
pub open spec fn body_outcome(r: Result<String, SearchError>, text: Result<Seq<char>, Seq<char>>) -> bool {
    match text {
        Err(m) => r matches Err(SearchError::Transport { provider, message }) && provider
            == PROVIDER_ID && message@ == "failed to read body: "@ + m,
        Ok(body) => if captcha_page(body) {
            r == Err::<String, SearchError>(SearchError::CaptchaDetected { provider: PROVIDER_ID })
        } else {
            r matches Ok(b) && b@ == body
        },
    }
}

/// Checks the body of a successful answer for a challenge page.
pub fn finalize_text(text: Result<String, String>) -> (r: Result<String, SearchError>)
    ensures
        body_outcome(
            r,
            match text {
                Ok(b) => Ok(b@),
                Err(m) => Err(m@),
            },
        ),
{
    match text {
        Err(m) => {
            let mut message = String::new();
            push_str(&mut message, "failed to read body: ");
            push_str(&mut message, m.as_str());
            Err(SearchError::Transport { provider: PROVIDER_ID, message })
        },
        Ok(body) => {
            if looks_like_captcha(body.as_str()) {
                Err(SearchError::CaptchaDetected { provider: PROVIDER_ID })
            } else {
                Ok(body)
            }
        },
    }
}

} // verus!
