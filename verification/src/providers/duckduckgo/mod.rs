//! `DuckDuckGo` provider.
//!
//! Talks to `DuckDuckGo`'s unauthenticated HTML endpoints. No API key, no
//! registration, no environment variables: this is the default zero-config
//! provider.
//!
//! # Robustness layers
//!
//! 1. **User-Agent rotation** — every request picks from a pool of 10
//!    current browser user agents.
//! 2. **POST + form data** — the HTML endpoint is reached via `POST`, which
//!    survives rate limiting better than `GET` with a query string.
//! 3. **Exponential backoff** — 429s and detected CAPTCHA pages retry with
//!    backoff via the shared [`RetryPolicy`].
//! 4. **Endpoint fallback** — when the HTML endpoint returns a CAPTCHA, a
//!    page it cannot parse, or rate limiting, the provider falls back to the
//!    lighter `lite.duckduckgo.com/lite/` endpoint, whose table-based HTML
//!    is much harder to break.
//!
//! A search is a small state machine ([`DdgSearch`]): the caller sends the
//! request [`DuckDuckGo::request`] shapes for the current step (retrying
//! per the policy) and feeds the body back with [`DdgSearch::on_body`].
//!
//! # Module layout
//!
//! - [`captcha`] — anomaly detection and fallback-eligibility predicates.
//! - [`http`] — user-agent rotation, request shaping, answer checking.
//! - [`params`] — form-field encoders (`kl`, `df`, `safe`, headers).
//! - [`parse`] — HTML → [`SearchHit`] extraction for both endpoints.

pub mod captcha;
pub mod http;
pub mod params;
pub mod parse;

use vstd::prelude::*;

use self::captcha::{is_recoverable_via_lite, recoverable};
use self::http::{
    form_post, html_form, html_headers, html_request, in_pool, lite_form, lite_headers,
    lite_request, pick_user_agent, RESULTS_PER_PAGE,
};
use self::parse::{html_outcome, lite_outcome, parse_html_results, parse_lite_results, selected_blocks};
use crate::error::SearchError;
use crate::http::{client_build_error, resolve_http, HttpConfig};
use crate::providers::common::{empty_query, empty_query_error, resolve_retry, HttpRequest};
use crate::providers::brave::min_usize;
use crate::query::{SearchQuery, SearchSource};
use crate::response::{SearchHit, SearchResponse};
use crate::retry::{is_production, retry_applied, RetryPolicy};

verus! {

/// Stable identifier sent with every error payload.
pub const PROVIDER_ID: &'static str = "duckduckgo";

/// Primary endpoint.
pub const DEFAULT_HTML_ENDPOINT: &'static str = "https://html.duckduckgo.com/html/";

/// Fallback endpoint.
pub const DEFAULT_LITE_ENDPOINT: &'static str = "https://lite.duckduckgo.com/lite/";

/// Hard cap on pagination — deeper pages usually trip anomaly detection.
pub const MAX_PAGES: u32 = 4;

/// `DuckDuckGo` search provider.
#[derive(Debug, Clone)]
pub struct DuckDuckGo {
    http: HttpConfig,
    html_endpoint: String,
    lite_endpoint: String,
    retry_policy: RetryPolicy,
    enable_fallback: bool,
}

/// Typed builder for [`DuckDuckGo`].
#[derive(Debug)]
pub struct DuckDuckGoBuilder {
    http: Option<HttpConfig>,
    html_endpoint: Option<String>,
    lite_endpoint: Option<String>,
    retry: Option<RetryPolicy>,
    enable_fallback: Option<bool>,
}

/// The endpoint a search is reading.
#[derive(Debug, Clone, Copy, PartialEq, Eq, Structural)]
pub enum DdgPage {
    /// Page `page` (counted from 0) of the html endpoint.
    Html {
        /// Page number.
        page: u32,
    },
    /// The lite endpoint.
    Lite,
}

/// A search in progress: the query, the hits gathered from the html
/// endpoint so far, and the page to read next.
#[derive(Debug)]
pub struct DdgSearch {
    query: SearchQuery,
    collected: Vec<SearchHit>,
    page: DdgPage,
}

/// What a search does next.
#[derive(Debug)]
pub enum DdgStep {
    /// Send [`DuckDuckGo::request`] for the search (retrying per the
    /// provider's policy) and pass the outcome to [`DdgSearch::on_body`].
    Fetch(DdgSearch),
    /// The search is over.
    Done(Result<SearchResponse, SearchError>),
}

/// `r` answers `q` with the first `limit` of `hits`, all filed as web
/// results.
pub open spec fn responds(r: SearchResponse, q: SearchQuery, hits: Seq<SearchHit>) -> bool {
    &&& r.query@ == q.query@
    &&& r.provider == PROVIDER_ID
    &&& r.answer is None
    &&& r.elapsed_ms == 0
    &&& r.web@ == hits.take(min_usize(hits.len() as usize, q.limit) as int)
    &&& r.news@.len() == 0
    &&& r.images@.len() == 0
}

/// Builds the response: the first `limit` hits, as web results.
pub fn respond(query: &SearchQuery, hits: Vec<SearchHit>) -> (r: SearchResponse)
    ensures
        responds(r, *query, hits@),
{
    let mut response = SearchResponse::new(query.query.as_str(), PROVIDER_ID);
    let ghost items = hits@;
    let n = if hits.len() < query.limit {
        hits.len()
    } else {
        query.limit
    };
    let mut rest = hits;
    let mut i: usize = 0;
    while i < n
        invariant
            0 <= i <= n <= items.len(),
            n == min_usize(items.len() as usize, query.limit),
            rest@ == items.subrange(i as int, items.len() as int),
            response.query@ == query.query@,
            response.provider == PROVIDER_ID,
            response.answer is None,
            response.elapsed_ms == 0,
            response.web@ == items.take(i as int),
            response.news@.len() == 0,
            response.images@.len() == 0,
        decreases n - i,
    {
        let hit = rest.remove(0);
        assert(hit == items[i as int]);
        assert(items.subrange(i + 1, items.len() as int) =~= rest@);
        response.push(SearchSource::Web, hit);
        assert(response.web@ =~= items.take(i + 1));
        i += 1;
    }
    response
}

impl DdgSearch {
    /// The query being answered.
    pub closed spec fn spec_query(&self) -> SearchQuery {
        self.query
    }

    /// The hits gathered from the html endpoint so far.
    pub closed spec fn spec_collected(&self) -> Seq<SearchHit> {
        self.collected@
    }

    /// The page to read next.
    pub closed spec fn spec_page(&self) -> DdgPage {
        self.page
    }

    #[verifier::type_invariant]
    spec fn inv(self) -> bool {
        match self.page {
            DdgPage::Html { page } => page < MAX_PAGES && self.collected@.len()
                < self.query.limit,
            DdgPage::Lite => self.collected@.len() == 0,
        }
    }

    /// The query being answered.
    pub fn query(&self) -> (q: &SearchQuery)
        ensures
            *q == self.spec_query(),
    {
        &self.query
    }

    /// The page to read next.
    pub fn page(&self) -> (p: DdgPage)
        ensures
            p == self.spec_page(),
    {
        self.page
    }

    /// Feeds back the outcome of the last request (after retries and
    /// answer checking), parsing the body with the layout of the endpoint
    /// it came from.
    pub fn on_body(self, provider: &DuckDuckGo, body: Result<String, SearchError>) -> (step:
        DdgStep)
        ensures
            match body {
                Err(e) => next_step(self, provider.spec_fallback(), Err(e), step),
                Ok(b) => exists|parsed: Result<Seq<SearchHit>, SearchError>|
                    #[trigger] page_parsed(self.spec_page(), b@, parsed) && next_step(
                        self,
                        provider.spec_fallback(),
                        parsed,
                        step,
                    ),
            },
            step matches DdgStep::Done(Ok(r)) ==> r.web@.len() <= self.spec_query().limit,
    {
        let ghost at = self.page;
        match body {
            Err(e) => self.on_page(provider, Err(e)),
            Ok(b) => {
                let parsed = match self.page {
                    DdgPage::Html { .. } => parse_html_results(b.as_str()),
                    DdgPage::Lite => parse_lite_results(b.as_str()),
                };
                assert(page_parsed(at, b@, parsed_view(parsed)));
                self.on_page(provider, parsed)
            },
        }
    }

    /// Feeds back the hits parsed from the last page, or the error that
    /// ended it.
    ///
    /// On the html endpoint, an error falls back to the lite endpoint when
    /// the fallback is enabled and the error is recoverable (CAPTCHA, parse
    /// failure, rate limiting), and ends the search otherwise; hits are
    /// gathered, and the next page is requested unless the page was short
    /// (fewer than [`RESULTS_PER_PAGE`] hits), the limit is reached or
    /// [`MAX_PAGES`] pages were read. On the lite endpoint the outcome ends
    /// the search.
    pub fn on_page(self, provider: &DuckDuckGo, page: Result<Vec<SearchHit>, SearchError>) -> (step:
        DdgStep)
        ensures
            next_step(self, provider.spec_fallback(), parsed_view(page), step),
            step matches DdgStep::Done(Ok(r)) ==> r.web@.len() <= self.spec_query().limit,
    {
        proof {
            use_type_invariant(&self);
        }
        let DdgSearch { query, collected, page: at } = self;
        match at {
            DdgPage::Lite => match page {
                Err(e) => DdgStep::Done(Err(e)),
                Ok(hits) => DdgStep::Done(Ok(respond(&query, hits))),
            },
            DdgPage::Html { page: p } => match page {
                Err(e) => {
                    if provider.enable_fallback && is_recoverable_via_lite(&e) {
                        DdgStep::Fetch(
                            DdgSearch { query, collected: Vec::new(), page: DdgPage::Lite },
                        )
                    } else {
                        DdgStep::Done(Err(e))
                    }
                },
                Ok(hits) => {
                    let page_len = hits.len();
                    let mut collected = collected;
                    let mut hits = hits;
                    collected.append(&mut hits);
                    if page_len < RESULTS_PER_PAGE as usize || collected.len() >= query.limit || p
                        + 1 >= MAX_PAGES {
                        DdgStep::Done(Ok(respond(&query, collected)))
                    } else {
                        DdgStep::Fetch(
                            DdgSearch { query, collected, page: DdgPage::Html { page: p + 1 } },
                        )
                    }
                },
            },
        }
    }
}

/// The hits of a parse result, or its error.
pub open spec fn parsed_view(r: Result<Vec<SearchHit>, SearchError>) -> Result<
    Seq<SearchHit>,
    SearchError,
> {
    match r {
        Ok(v) => Ok(v@),
        Err(e) => Err(e),
    }
}

/// `parsed` is what reading `body` with the layout of the endpoint `page`
/// names yields.
pub open spec fn page_parsed(
    page: DdgPage,
    body: Seq<char>,
    parsed: Result<Seq<SearchHit>, SearchError>,
) -> bool {
    exists|r: Result<Vec<SearchHit>, SearchError>|
        #[trigger] parsed_view(r) == parsed && match page {
            DdgPage::Html { .. } => html_outcome(
                r,
                selected_blocks(
                    body,
                    "div.result"@,
                    seq!["a.result__a"@, "a.result__snippet, .result__snippet"@],
                ),
                body,
            ),
            DdgPage::Lite => lite_outcome(
                r,
                selected_blocks(body, "tr"@, seq!["a.result-link"@]),
                body,
            ),
        }
}

/// What a search does after the page it was reading yielded `page`.
pub open spec fn next_step(
    s: DdgSearch,
    fallback: bool,
    page: Result<Seq<SearchHit>, SearchError>,
    step: DdgStep,
) -> bool {
    let q = s.spec_query();
    match s.spec_page() {
        DdgPage::Lite => match page {
            Err(e) => step == DdgStep::Done(Err(e)),
            Ok(hits) => step matches DdgStep::Done(Ok(r)) && responds(r, q, hits),
        },
        DdgPage::Html { page: p } => match page {
            Err(e) => if fallback && recoverable(e) {
                step matches DdgStep::Fetch(n) && n.spec_query() == q && n.spec_page()
                    == DdgPage::Lite && n.spec_collected().len() == 0
            } else {
                step == DdgStep::Done(Err(e))
            },
            Ok(hits) => {
                let all = s.spec_collected() + hits;
                if hits.len() < RESULTS_PER_PAGE || all.len() >= q.limit || p + 1 >= MAX_PAGES {
                    step matches DdgStep::Done(Ok(r)) && responds(r, q, all)
                } else {
                    step matches DdgStep::Fetch(n) && n.spec_query() == q && n.spec_collected()
                        == all && n.spec_page() == (DdgPage::Html { page: (p + 1) as u32 })
                }
            },
        },
    }
}

/// Reading an html page keeps the hits gathered so far and puts the page's
/// hits after them, in their order: a search that goes on holds the earlier
/// hits followed by the page's, and a search that ends answers with the
/// first `limit` of that sequence, so earlier pages rank first.
pub proof fn lemma_html_page_appends(
    s: DdgSearch,
    fallback: bool,
    hits: Seq<SearchHit>,
    step: DdgStep,
)
    requires
        s.spec_page() is Html,
        next_step(s, fallback, Ok(hits), step),
    ensures
        step matches DdgStep::Fetch(n) ==> {
            &&& n.spec_collected().len() == s.spec_collected().len() + hits.len()
            &&& forall|i: int|
                0 <= i < s.spec_collected().len() ==> n.spec_collected()[i]
                    == #[trigger] s.spec_collected()[i]
            &&& forall|j: int|
                0 <= j < hits.len() ==> n.spec_collected()[s.spec_collected().len() + j]
                    == #[trigger] hits[j]
        },
        step matches DdgStep::Done(Ok(r)) ==> {
            &&& r.web@.len() == min_usize(
                (s.spec_collected().len() + hits.len()) as usize,
                s.spec_query().limit,
            )
            &&& forall|i: int|
                0 <= i < s.spec_collected().len() && i < r.web@.len() ==> r.web@[i]
                    == #[trigger] s.spec_collected()[i]
            &&& forall|j: int|
                0 <= j < hits.len() && s.spec_collected().len() + j < r.web@.len() ==> r.web@[s.spec_collected().len() + j]
                    == #[trigger] hits[j]
        },
{
}

/// A search never asks for more than [`MAX_PAGES`] pages of the html
/// endpoint, reads the lite endpoint at most once, and starts the lite
/// endpoint with nothing gathered.
pub proof fn lemma_next_page_bounded(
    s: DdgSearch,
    fallback: bool,
    page: Result<Seq<SearchHit>, SearchError>,
    step: DdgStep,
)
    requires
        next_step(s, fallback, page, step),
    ensures
        step matches DdgStep::Fetch(n) ==> {
            &&& s.spec_page() is Html
            &&& n.spec_page() matches DdgPage::Html { page: p } ==> p < MAX_PAGES
            &&& n.spec_page() is Lite ==> n.spec_collected().len() == 0
        },
{
}

/// A search falls back to the lite endpoint only when the fallback is
/// enabled and the html endpoint failed with a recoverable error.
pub proof fn lemma_fallback_only_when_recoverable(
    s: DdgSearch,
    fallback: bool,
    page: Result<Seq<SearchHit>, SearchError>,
    step: DdgStep,
)
    requires
        next_step(s, fallback, page, step),
    ensures
        (step matches DdgStep::Fetch(n) && n.spec_page() is Lite) ==> fallback && (page matches Err(
            e,
        ) && recoverable(e)),
{
}

/// Whatever a page yields, a finished search answers with at most `limit`
/// hits.
pub proof fn lemma_answer_within_limit(
    s: DdgSearch,
    fallback: bool,
    page: Result<Seq<SearchHit>, SearchError>,
    step: DdgStep,
)
    requires
        next_step(s, fallback, page, step),
    ensures
        step matches DdgStep::Done(Ok(r)) ==> r.web@.len() <= s.spec_query().limit,
{
}

impl DuckDuckGo {
    /// The html endpoint.
    pub closed spec fn spec_html_endpoint(&self) -> Seq<char> {
        self.html_endpoint@
    }

    /// The lite endpoint.
    pub closed spec fn spec_lite_endpoint(&self) -> Seq<char> {
        self.lite_endpoint@
    }

    /// The retry policy.
    pub closed spec fn spec_retry_policy(&self) -> RetryPolicy {
        self.retry_policy
    }

    /// Whether the html → lite fallback is enabled.
    pub closed spec fn spec_fallback(&self) -> bool {
        self.enable_fallback
    }

    /// Creates a provider with default settings.
    ///
    /// # Errors
    ///
    /// Returns [`SearchError::Config`] if the default HTTP client cannot be
    /// constructed.
    pub fn new() -> (r: Result<Self, SearchError>)
        ensures
            r matches Ok(p) ==> p.spec_html_endpoint() == DEFAULT_HTML_ENDPOINT@
                && p.spec_lite_endpoint() == DEFAULT_LITE_ENDPOINT@ && p.spec_fallback()
                && is_production(p.spec_retry_policy()),
            r matches Err(e) ==> e is Config,
    {
        DuckDuckGo::builder().build()
    }

    /// Starts a typed builder for fine-grained configuration.
    pub fn builder() -> (b: DuckDuckGoBuilder)
        ensures
            b.spec_http() is None,
            b.spec_html_endpoint() is None,
            b.spec_lite_endpoint() is None,
            b.spec_retry() is None,
            b.spec_fallback() is None,
    {
        DuckDuckGoBuilder {
            http: None,
            html_endpoint: None,
            lite_endpoint: None,
            retry: None,
            enable_fallback: None,
        }
    }

    /// The shared HTTP settings held.
    pub closed spec fn spec_http(&self) -> HttpConfig {
        self.http
    }

    /// Shared HTTP settings.
    pub fn http(&self) -> (h: &HttpConfig)
        ensures
            *h == self.spec_http(),
    {
        &self.http
    }

    /// The retry policy applied to every request.
    pub fn retry_policy(&self) -> (p: RetryPolicy)
        ensures
            p == self.spec_retry_policy(),
    {
        self.retry_policy
    }

    /// Whether the html → lite fallback is enabled.
    pub fn fallback_enabled(&self) -> (b: bool)
        ensures
            b == self.spec_fallback(),
    {
        self.enable_fallback
    }

    /// Starts a search: a blank query is rejected, a zero limit answers
    /// at once with no hits, and any other query reads page 0 of the html
    /// endpoint.
    pub fn start(&self, query: SearchQuery) -> (step: DdgStep)
        ensures
            !query.valid() ==> (step matches DdgStep::Done(Err(e)) && empty_query_error(e)),
            query.valid() && query.limit == 0 ==> (step matches DdgStep::Done(Ok(r)) && responds(
                r,
                query,
                Seq::empty(),
            )),
            query.valid() && query.limit > 0 ==> (step matches DdgStep::Fetch(s) && s.spec_query()
                == query && s.spec_collected().len() == 0 && s.spec_page() == (DdgPage::Html {
                page: 0,
            })),
    {
        if !query.is_valid() {
            return DdgStep::Done(Err(empty_query()));
        }
        if query.limit == 0 {
            let r = respond(&query, Vec::new());
            return DdgStep::Done(Ok(r));
        }
        DdgStep::Fetch(DdgSearch { query, collected: Vec::new(), page: DdgPage::Html { page: 0 } })
    }

    /// The request for the step a search is at, with a user agent picked
    /// from the rotation pool: page `p` of the html endpoint asks for the
    /// results from offset `25 * p`.
    pub fn request(&self, search: &DdgSearch) -> (req: HttpRequest)
        ensures
            exists|ua: Seq<char>| #[trigger] in_pool(ua) && match search.spec_page() {
                DdgPage::Html { page } => form_post(
                    req,
                    self.spec_html_endpoint(),
                    html_headers(ua, search.spec_query()),
                    html_form(search.spec_query(), (page * RESULTS_PER_PAGE) as u32),
                ),
                DdgPage::Lite => form_post(
                    req,
                    self.spec_lite_endpoint(),
                    lite_headers(ua, search.spec_query()),
                    lite_form(search.spec_query()),
                ),
            },
    {
        proof {
            use_type_invariant(search);
        }
        let ua = pick_user_agent();
        match search.page {
            DdgPage::Html { page } => html_request(
                self.html_endpoint.as_str(),
                &search.query,
                page * RESULTS_PER_PAGE,
                ua,
            ),
            DdgPage::Lite => lite_request(self.lite_endpoint.as_str(), &search.query, ua),
        }
    }
}

impl DuckDuckGoBuilder {
    /// The HTTP settings given, if any.
    pub closed spec fn spec_http(&self) -> Option<HttpConfig> {
        self.http
    }

    /// The html endpoint given, if any.
    pub closed spec fn spec_html_endpoint(&self) -> Option<String> {
        self.html_endpoint
    }

    /// The lite endpoint given, if any.
    pub closed spec fn spec_lite_endpoint(&self) -> Option<String> {
        self.lite_endpoint
    }

    /// The retry policy given, if any.
    pub closed spec fn spec_retry(&self) -> Option<RetryPolicy> {
        self.retry
    }

    /// The fallback setting given, if any.
    pub closed spec fn spec_fallback(&self) -> Option<bool> {
        self.enable_fallback
    }

    /// Supplies a shared [`HttpConfig`].
    pub fn http(self, http: HttpConfig) -> (b: Self)
        ensures
            b.spec_http() == Some(http),
            b.spec_html_endpoint() == self.spec_html_endpoint(),
            b.spec_lite_endpoint() == self.spec_lite_endpoint(),
            b.spec_retry() == self.spec_retry(),
            b.spec_fallback() == self.spec_fallback(),
    {
        DuckDuckGoBuilder { http: Some(http), ..self }
    }

    /// Overrides the primary html endpoint (useful for tests and mirrors).
    pub fn html_endpoint(self, endpoint: &str) -> (b: Self)
        ensures
            b.spec_html_endpoint() matches Some(e) && e@ == endpoint@,
            b.spec_http() == self.spec_http(),
            b.spec_lite_endpoint() == self.spec_lite_endpoint(),
            b.spec_retry() == self.spec_retry(),
            b.spec_fallback() == self.spec_fallback(),
    {
        DuckDuckGoBuilder { html_endpoint: Some(endpoint.to_owned()), ..self }
    }

    /// Overrides the lite fallback endpoint.
    pub fn lite_endpoint(self, endpoint: &str) -> (b: Self)
        ensures
            b.spec_lite_endpoint() matches Some(e) && e@ == endpoint@,
            b.spec_http() == self.spec_http(),
            b.spec_html_endpoint() == self.spec_html_endpoint(),
            b.spec_retry() == self.spec_retry(),
            b.spec_fallback() == self.spec_fallback(),
    {
        DuckDuckGoBuilder { lite_endpoint: Some(endpoint.to_owned()), ..self }
    }

    /// Overrides the retry policy.
    pub fn retry(self, policy: RetryPolicy) -> (b: Self)
        ensures
            b.spec_http() == self.spec_http(),
            b.spec_html_endpoint() == self.spec_html_endpoint(),
            b.spec_lite_endpoint() == self.spec_lite_endpoint(),
            b.spec_retry() == Some(policy),
            b.spec_fallback() == self.spec_fallback(),
    {
        DuckDuckGoBuilder { retry: Some(policy), ..self }
    }

    /// Enables or disables the automatic html → lite fallback (enabled by
    /// default). Disable it to surface anomaly / CAPTCHA errors untouched.
    pub fn fallback(self, enabled: bool) -> (b: Self)
        ensures
            b.spec_http() == self.spec_http(),
            b.spec_html_endpoint() == self.spec_html_endpoint(),
            b.spec_lite_endpoint() == self.spec_lite_endpoint(),
            b.spec_retry() == self.spec_retry(),
            b.spec_fallback() == Some(enabled),
    {
        DuckDuckGoBuilder { enable_fallback: Some(enabled), ..self }
    }

    /// Builds the provider.
    ///
    /// # Errors
    ///
    /// Returns [`SearchError::Config`] if the default HTTP client cannot be
    /// constructed.
    pub fn build(self) -> (r: Result<DuckDuckGo, SearchError>)
        ensures
            r matches Ok(p) ==> (self.spec_http() matches Some(h) ==> p.spec_http() == h),
            r matches Ok(p) ==> {
                &&& p.spec_html_endpoint() == (match self.spec_html_endpoint() {
                    Some(e) => e@,
                    None => DEFAULT_HTML_ENDPOINT@,
                })
                &&& p.spec_lite_endpoint() == (match self.spec_lite_endpoint() {
                    Some(e) => e@,
                    None => DEFAULT_LITE_ENDPOINT@,
                })
                &&& p.spec_fallback() == (match self.spec_fallback() {
                    Some(f) => f,
                    None => true,
                })
                &&& retry_applied(self.spec_retry(), p.spec_retry_policy())
            },
            r matches Err(e) ==> self.spec_http() is None && client_build_error(e),
    {
        let http = match resolve_http(self.http) {
            Ok(h) => h,
            Err(e) => return Err(e),
        };
        let html_endpoint = match self.html_endpoint {
            Some(e) => e,
            None => DEFAULT_HTML_ENDPOINT.to_owned(),
        };
        let lite_endpoint = match self.lite_endpoint {
            Some(e) => e,
            None => DEFAULT_LITE_ENDPOINT.to_owned(),
        };
        let enable_fallback = match self.enable_fallback {
            Some(f) => f,
            None => true,
        };
        Ok(
            DuckDuckGo {
                http,
                html_endpoint,
                lite_endpoint,
                retry_policy: resolve_retry(self.retry),
                enable_fallback,
            },
        )
    }
}

impl Default for DuckDuckGoBuilder {
    fn default() -> (b: Self)
        ensures
            b.spec_http() is None,
            b.spec_html_endpoint() is None,
            b.spec_lite_endpoint() is None,
            b.spec_retry() is None,
            b.spec_fallback() is None,
    {
        DuckDuckGo::builder()
    }
}

} // verus!
