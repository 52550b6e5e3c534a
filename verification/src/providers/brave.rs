//! Brave Search API provider.
//!
//! Uses the official Brave Web Search API backed by Brave's independent
//! index. Requires a subscription token (the `BRAVE_API_KEY` environment
//! variable when built through the client).

use vstd::prelude::*;

use crate::client::ENV_BRAVE_API_KEY;
use crate::encoding::pairs_view;
use crate::error::SearchError;
use crate::http::{client_build_error, resolve_http, HttpConfig};
use crate::providers::common::{empty_query, empty_query_error, headers_view, join_endpoint, parse_base_url, push_header, push_pair, resolve_retry, with_query, add_query, HttpRequest, Method};
use crate::query::{SafeSearch, SearchQuery, SearchSource, TimeRange};
use crate::response::{lemma_push_all_sections, lemma_source_hits_uniform, push_all, same_header, section_of, sections, source_hits, within, SearchHit, SearchResponse, Sections};
use crate::retry::{is_production, retry_applied, RetryPolicy};
use crate::secret::SecretString;
use crate::text::{decimal, decimal_string, is_blank, keep_non_empty, non_empty};
use crate::urls::{joined_url, parsed_url};

verus! {

/// Provider identifier.
pub const PROVIDER_ID: &'static str = "brave";

/// Canonical Brave Search API root URL.
pub const DEFAULT_BASE_URL: &'static str = "https://api.search.brave.com";

/// Path of the web search endpoint, relative to the base URL.
pub const SEARCH_PATH: &'static str = "res/v1/web/search";

/// Brave caps `count` at 20 per request.
pub const MAX_COUNT: usize = 20;

/// Brave Search API provider.
#[derive(Clone)]
pub struct Brave {
    http: HttpConfig,
    base_url: String,
    api_key: SecretString,
    retry_policy: RetryPolicy,
}

/// Typed builder for [`Brave`].
pub struct BraveBuilder {
    api_key: SecretString,
    base_url: String,
    http: Option<HttpConfig>,
    retry: Option<RetryPolicy>,
}

/// Brave's `safesearch` parameter.
pub open spec fn safesearch_label_spec(level: SafeSearch) -> Seq<char> {
    match level {
        SafeSearch::Off => "off"@,
        SafeSearch::Moderate => "moderate"@,
        SafeSearch::Strict => "strict"@,
    }
}

/// Brave's `freshness` parameter.
pub open spec fn freshness_label_spec(range: TimeRange) -> Seq<char> {
    match range {
        TimeRange::Day => "pd"@,
        TimeRange::Week => "pw"@,
        TimeRange::Month => "pm"@,
        TimeRange::Year => "py"@,
    }
}

/// Brave's `safesearch` parameter.
pub fn safesearch_label(level: SafeSearch) -> (s: &'static str)
    ensures
        s@ == safesearch_label_spec(level),
{
    match level {
        SafeSearch::Off => "off",
        SafeSearch::Moderate => "moderate",
        SafeSearch::Strict => "strict",
    }
}

/// Brave's `freshness` parameter.
pub fn freshness_label(range: TimeRange) -> (s: &'static str)
    ensures
        s@ == freshness_label_spec(range),
{
    match range {
        TimeRange::Day => "pd",
        TimeRange::Week => "pw",
        TimeRange::Month => "pm",
        TimeRange::Year => "py",
    }
}

/// The smaller of two sizes.
pub open spec fn min_usize(a: usize, b: usize) -> usize {
    if a <= b {
        a
    } else {
        b
    }
}

/// Query parameters of a Brave search: `q`, `count` (capped at 20),
/// `safesearch`, then `country`, `search_lang` and `freshness` when set.
pub open spec fn brave_pairs(q: SearchQuery) -> Seq<(Seq<char>, Seq<char>)> {
    let base = seq![
        ("q"@, q.query@),
        ("count"@, decimal(min_usize(q.limit, MAX_COUNT) as nat)),
        ("safesearch"@, safesearch_label_spec(q.safesearch)),
    ];
    let with_country = match q.country {
        Some(c) => base.push(("country"@, c@)),
        None => base,
    };
    let with_lang = match q.language {
        Some(l) => with_country.push(("search_lang"@, l@)),
        None => with_country,
    };
    match q.time_range {
        Some(t) => with_lang.push(("freshness"@, freshness_label_spec(t))),
        None => with_lang,
    }
}

/// Query parameters of the request for result page `page` (counted from
/// 0): the first page asks without `offset`, later ones add it.
pub open spec fn page_pairs(q: SearchQuery, page: u32) -> Seq<(Seq<char>, Seq<char>)> {
    if page == 0 {
        brave_pairs(q)
    } else {
        brave_pairs(q).push(("offset"@, decimal(page as nat)))
    }
}

fn query_pairs(q: &SearchQuery, page: u32) -> (v: Vec<(String, String)>)
    ensures
        pairs_view(v@) == page_pairs(*q, page),
{
    let mut v: Vec<(String, String)> = Vec::new();
    push_pair(&mut v, "q", q.query.as_str());
    let count = if q.limit < MAX_COUNT {
        q.limit
    } else {
        MAX_COUNT
    };
    let count_text = decimal_string(count as u64);
    push_pair(&mut v, "count", count_text.as_str());
    push_pair(&mut v, "safesearch", safesearch_label(q.safesearch));
    match &q.country {
        Some(c) => push_pair(&mut v, "country", c.as_str()),
        None => {},
    }
    match &q.language {
        Some(l) => push_pair(&mut v, "search_lang", l.as_str()),
        None => {},
    }
    match q.time_range {
        Some(t) => push_pair(&mut v, "freshness", freshness_label(t)),
        None => {},
    }
    assert(pairs_view(v@) =~= brave_pairs(*q));
    if page > 0 {
        let offset = decimal_string(page as u64);
        push_pair(&mut v, "offset", offset.as_str());
    }
    v
}

/// The request a search sends: a `GET` of the endpoint with the
/// subscription token and a JSON `Accept` header.
pub open spec fn brave_request(req: HttpRequest, url: Seq<char>, key: Seq<char>) -> bool {
    &&& req.method == Method::Get
    &&& req.url@ == url
    &&& headers_view(req.headers@) == seq![
        ("X-Subscription-Token"@, key),
        ("Accept"@, "application/json"@),
    ]
    &&& req.body is None
}

/// The request for result page `page`, or why there is none: blank query,
/// blank key, or an endpoint that cannot be resolved.
pub open spec fn prepared(r: Result<HttpRequest, SearchError>, base: Seq<char>, key: Seq<char>, q: SearchQuery, page: u32) -> bool {
    if !q.valid() {
        r matches Err(e) && empty_query_error(e)
    } else if is_blank(key) {
        r == Err::<HttpRequest, SearchError>(
            SearchError::MissingApiKey { provider: PROVIDER_ID, env_var: ENV_BRAVE_API_KEY },
        )
    } else {
        match joined_url(base, SEARCH_PATH@) {
            Ok(j) => r matches Ok(req) && brave_request(req, with_query(j, page_pairs(q, page)), key),
            Err(m) => r matches Err(SearchError::Config { message }) && message@
                == "cannot build Brave endpoint: "@ + m,
        }
    }
}

impl Brave {
    /// The API base URL, as the URL parser serialised it.
    pub closed spec fn spec_base_url(&self) -> Seq<char> {
        self.base_url@
    }

    /// The subscription token.
    pub closed spec fn spec_api_key(&self) -> Seq<char> {
        self.api_key@
    }

    /// The retry policy.
    pub closed spec fn spec_retry_policy(&self) -> RetryPolicy {
        self.retry_policy
    }

    /// Creates a provider pointing at the canonical Brave API endpoint.
    ///
    /// # Errors
    ///
    /// Returns [`SearchError::Config`] if the HTTP client cannot be built.
    pub fn new(api_key: SecretString) -> (r: Result<Self, SearchError>)
        ensures
            r matches Ok(p) ==> p.spec_api_key() == api_key@ && parsed_url(DEFAULT_BASE_URL@)
                == Ok::<Seq<char>, Seq<char>>(p.spec_base_url()) && is_production(
                p.spec_retry_policy(),
            ),
            parsed_url(DEFAULT_BASE_URL@) matches Err(m) ==> (r matches Err(SearchError::Config {
                message,
            }) && message@ == "invalid Brave base URL: "@ + m),
            parsed_url(DEFAULT_BASE_URL@) is Ok ==> (r matches Err(e) ==> client_build_error(e)),
    {
        Brave::builder(api_key).build()
    }

    /// Convenience constructor for tests and ad-hoc base URLs.
    ///
    /// # Errors
    ///
    /// Returns [`SearchError::Config`] if `base_url` is invalid or the HTTP
    /// client cannot be built.
    pub fn with_base_url(api_key: SecretString, base_url: &str) -> (r: Result<Self, SearchError>)
        ensures
            parsed_url(base_url@) matches Err(m) ==> (r matches Err(SearchError::Config {
                message,
            }) && message@ == "invalid Brave base URL: "@ + m),
            r matches Ok(p) ==> p.spec_api_key() == api_key@ && parsed_url(base_url@) == Ok::<
                Seq<char>,
                Seq<char>,
            >(p.spec_base_url()),
    {
        Brave::builder(api_key).base_url(base_url).build()
    }

    /// Starts a typed builder for fine-grained configuration.
    pub fn builder(api_key: SecretString) -> (b: BraveBuilder)
        ensures
            b.spec_api_key() == api_key@,
            b.spec_base_url() == DEFAULT_BASE_URL@,
            b.spec_http() is None,
            b.spec_retry() is None,
    {
        BraveBuilder {
            api_key,
            base_url: DEFAULT_BASE_URL.to_owned(),
            http: None,
            retry: None,
        }
    }

    /// The shared HTTP settings held.
    pub closed spec fn spec_http(&self) -> HttpConfig {
        self.http
    }

    /// Shared HTTP settings.
    pub fn http(&self) -> (h: &HttpConfig)
        ensures
            *h == self.spec_http(),
    {
        &self.http
    }

    /// The retry policy applied to the request.
    pub fn retry_policy(&self) -> (p: RetryPolicy)
        ensures
            p == self.spec_retry_policy(),
    {
        self.retry_policy
    }

    /// The printable form of the provider, with the key redacted.
    pub fn debug_text(&self) -> (s: String)
        ensures
            s@ == "Brave { base_url: "@ + self.spec_base_url() + ", api_key: [REDACTED], .. }"@,
    {
        let mut s = String::new();
        crate::text::push_str(&mut s, "Brave { base_url: ");
        crate::text::push_str(&mut s, self.base_url.as_str());
        crate::text::push_str(&mut s, ", api_key: [REDACTED], .. }");
        s
    }

    /// The request for the first page of results.
    ///
    /// # Errors
    ///
    /// [`SearchError::Config`] for a blank query or an endpoint that cannot
    /// be resolved; [`SearchError::MissingApiKey`] for a blank key.
    pub fn prepare(&self, query: &SearchQuery) -> (r: Result<HttpRequest, SearchError>)
        ensures
            prepared(r, self.spec_base_url(), self.spec_api_key(), *query, 0),
    {
        self.page_request(query, 0)
    }

    /// The request for result page `page` (counted from 0; Brave caps each
    /// page at 20 results and pages by `offset`).
    ///
    /// # Errors
    ///
    /// As [`Brave::prepare`].
    pub fn page_request(&self, query: &SearchQuery, page: u32) -> (r: Result<
        HttpRequest,
        SearchError,
    >)
        ensures
            prepared(r, self.spec_base_url(), self.spec_api_key(), *query, page),
    {
        if !query.is_valid() {
            return Err(empty_query());
        }
        if self.api_key.is_empty() {
            return Err(
                SearchError::MissingApiKey { provider: PROVIDER_ID, env_var: ENV_BRAVE_API_KEY },
            );
        }
        let endpoint = match join_endpoint(
            self.base_url.as_str(),
            SEARCH_PATH,
            "cannot build Brave endpoint: ",
        ) {
            Ok(u) => u,
            Err(e) => return Err(e),
        };
        let pairs = query_pairs(query, page);
        let url = add_query(endpoint, &pairs);
        let mut headers: Vec<(String, String)> = Vec::new();
        assert(headers_view(headers@) =~= Seq::empty());
        push_header(&mut headers, "X-Subscription-Token", self.api_key.expose());
        push_header(&mut headers, "Accept", "application/json");
        assert(headers_view(headers@) =~= seq![
            ("X-Subscription-Token"@, self.spec_api_key()),
            ("Accept"@, "application/json"@),
        ]);
        Ok(HttpRequest { method: Method::Get, url, headers, body: None })
    }

    /// Starts a search: the request for the first page, or the error that
    /// prevents it.
    pub fn start(&self, query: SearchQuery) -> (step: BraveStep)
        ensures
            asks_for(step, self.spec_base_url(), self.spec_api_key(), query, 0, |r: SearchResponse|
                r.query@ == query.query@ && r.provider == PROVIDER_ID && r.answer is None
                    && r.elapsed_ms == 0 && sections(r) == (
                    Seq::<SearchHit>::empty(),
                    Seq::<SearchHit>::empty(),
                    Seq::<SearchHit>::empty(),
                )),
    {
        let response = SearchResponse::new(query.query.as_str(), PROVIDER_ID);
        assert(sections(response) =~= (
            Seq::<SearchHit>::empty(),
            Seq::<SearchHit>::empty(),
            Seq::<SearchHit>::empty(),
        ));
        match self.page_request(&query, 0) {
            Ok(request) => BraveStep::Fetch {
                request,
                search: BraveSearch { query, response, page: 0 },
            },
            Err(e) => BraveStep::Done(Err(e)),
        }
    }
}

/// Most pages a search reads (Brave accepts offsets 0 to 9).
pub const MAX_PAGES: u32 = 10;

/// A search in progress: the query, the hits gathered so far and the page
/// being requested.
#[derive(Debug)]
pub struct BraveSearch {
    query: SearchQuery,
    response: SearchResponse,
    page: u32,
}

/// What a Brave search does next.
#[derive(Debug)]
pub enum BraveStep {
    /// Send `request` (retrying per the provider's policy), then pass the
    /// decoded reply to [`BraveSearch::on_page`] of `search`.
    Fetch {
        /// The page request.
        request: HttpRequest,
        /// The search waiting for that page.
        search: BraveSearch,
    },
    /// The search is over.
    Done(Result<SearchResponse, SearchError>),
}

/// The step asks for page `page` with a search holding a response that
/// satisfies `held`, or ends with the error that prevents the request.
pub open spec fn asks_for(
    step: BraveStep,
    base: Seq<char>,
    key: Seq<char>,
    q: SearchQuery,
    page: u32,
    held: spec_fn(SearchResponse) -> bool,
) -> bool {
    match step {
        BraveStep::Fetch { request, search } => {
            &&& prepared(Ok(request), base, key, q, page)
            &&& search.spec_query() == q
            &&& search.spec_page() == page
            &&& held(search.spec_response())
        },
        BraveStep::Done(Err(e)) => prepared(Err(e), base, key, q, page),
        BraveStep::Done(Ok(_)) => false,
    }
}

/// Number of web results in a reply.
pub open spec fn web_count(body: BraveBody) -> nat {
    match body.web {
        Some(s) => s.results@.len(),
        None => 0,
    }
}

/// Whether the search goes on after a page: web results are asked for and
/// still fewer than `limit`, the page was full ([`MAX_COUNT`] web results)
/// and another offset remains.
pub open spec fn wants_next_page(q: SearchQuery, t: Sections, body: BraveBody, page: u32) -> bool {
    &&& q.sources@.contains(SearchSource::Web)
    &&& t.0.len() < q.limit
    &&& web_count(body) >= MAX_COUNT
    &&& page + 1 < MAX_PAGES
}

impl BraveSearch {
    /// The query being answered.
    pub closed spec fn spec_query(&self) -> SearchQuery {
        self.query
    }

    /// The response gathered so far.
    pub closed spec fn spec_response(&self) -> SearchResponse {
        self.response
    }

    /// The page being requested.
    pub closed spec fn spec_page(&self) -> u32 {
        self.page
    }

    #[verifier::type_invariant]
    spec fn inv(self) -> bool {
        &&& self.page < MAX_PAGES
        &&& within(sections(self.response), self.query.limit as nat)
        &&& self.response.provider == PROVIDER_ID
    }

    /// Feeds back the outcome of the last page request (after retries).
    ///
    /// An error ends the search. Otherwise the page's web and news results
    /// (as far as the query asks for them) are added while their section
    /// holds fewer than `limit` hits; the next page is requested while web
    /// results are wanted, the page was full and an offset remains.
    pub fn on_page(self, provider: &Brave, body: Result<BraveBody, SearchError>) -> (step: BraveStep)
        ensures
            body matches Err(e) ==> step == BraveStep::Done(Err(e)),
            body matches Ok(b) ==> ({
                let q = self.spec_query();
                let r0 = self.spec_response();
                let t = page_sections(sections(r0), q, b);
                let grown = |r: SearchResponse| same_header(r0, r) && sections(r) == t;
                if wants_next_page(q, t, b, self.spec_page()) {
                    asks_for(
                        step,
                        provider.spec_base_url(),
                        provider.spec_api_key(),
                        q,
                        (self.spec_page() + 1) as u32,
                        grown,
                    )
                } else {
                    step matches BraveStep::Done(Ok(r)) && grown(r)
                }
            }),
            step matches BraveStep::Done(Ok(r)) ==> within(sections(r), self.spec_query().limit as nat),
    {
        proof {
            use_type_invariant(&self);
        }
        let body = match body {
            Ok(b) => b,
            Err(e) => return BraveStep::Done(Err(e)),
        };
        let BraveSearch { query, mut response, page } = self;
        let web_len: usize = match &body.web {
            Some(s) => s.results.len(),
            None => 0,
        };
        push_page(&mut response, &query, body);
        if sources_contain(&query.sources, SearchSource::Web) && response.web.len() < query.limit
            && web_len >= MAX_COUNT && page + 1 < MAX_PAGES {
            match provider.page_request(&query, page + 1) {
                Ok(request) => BraveStep::Fetch {
                    request,
                    search: BraveSearch { query, response, page: page + 1 },
                },
                Err(e) => BraveStep::Done(Err(e)),
            }
        } else {
            BraveStep::Done(Ok(response))
        }
    }
}

/// `sources` contains `s`.
pub fn sources_contain(sources: &Vec<SearchSource>, s: SearchSource) -> (b: bool)
    ensures
        b == sources@.contains(s),
{
    let mut i: usize = 0;
    while i < sources.len()
        invariant
            0 <= i <= sources@.len(),
            forall|j: int| 0 <= j < i ==> sources@[j] != s,
        decreases sources@.len() - i,
    {
        if sources[i] == s {
            assert(sources@[i as int] == s);
            return true;
        }
        i += 1;
    }
    false
}

/// A decoded Brave reply.
#[derive(Debug, Clone)]
pub struct BraveBody {
    /// Web results, when present.
    pub web: Option<BraveSection>,
    /// News results, when present.
    pub news: Option<BraveSection>,
}

/// One section of a Brave reply.
#[derive(Debug, Clone)]
pub struct BraveSection {
    /// The results, in rank order.
    pub results: Vec<BraveResult>,
}

/// One Brave result.
#[derive(Debug, Clone)]
pub struct BraveResult {
    /// Result title.
    pub title: String,
    /// Result URL.
    pub url: String,
    /// Snippet.
    pub description: Option<String>,
    /// Age / publication date as Brave reports it.
    pub age: Option<String>,
}

/// The hit a Brave result becomes (an empty description is dropped).
pub open spec fn brave_hit(r: BraveResult) -> SearchHit {
    SearchHit {
        title: r.title,
        url: r.url,
        description: non_empty(r.description),
        published_at: r.age,
        engine: None,
        score: None,
    }
}

/// A Brave result becomes a hit with the result's title and URL, its age
/// as the publication date, and no engine or score; its description is the
/// hit's description exactly when present and not empty.
pub proof fn lemma_brave_hit_fields(r: BraveResult)
    ensures
        brave_hit(r).title == r.title,
        brave_hit(r).url == r.url,
        brave_hit(r).published_at == r.age,
        brave_hit(r).engine is None,
        brave_hit(r).score is None,
        r.description matches Some(c) ==> (c@.len() > 0 ==> brave_hit(r).description == Some(c)),
        brave_hit(r).description matches Some(d) ==> r.description == Some(d) && d@.len() > 0,
{
}

/// Brave's freshness values `pd`, `pw`, `pm` and `py` each stand for
/// exactly one range (a day, a week, a month, a year), so distinct ranges
/// ask for distinct freshness.
pub proof fn lemma_freshness_labels(t: TimeRange, u: TimeRange)
    ensures
        (freshness_label_spec(t) == "pd"@) == (t is Day),
        (freshness_label_spec(t) == "pw"@) == (t is Week),
        (freshness_label_spec(t) == "pm"@) == (t is Month),
        (freshness_label_spec(t) == "py"@) == (t is Year),
        freshness_label_spec(t) == freshness_label_spec(u) ==> t == u,
{
    reveal_strlit("pd");
    reveal_strlit("pw");
    reveal_strlit("pm");
    reveal_strlit("py");
    assert("pd"@[1] == 'd' && "pw"@[1] == 'w' && "pm"@[1] == 'm' && "py"@[1] == 'y');
}

/// Brave's safesearch values `off`, `moderate` and `strict` each stand for
/// exactly one level, so distinct levels ask for distinct filtering.
pub proof fn lemma_safesearch_labels(a: SafeSearch, b: SafeSearch)
    ensures
        (safesearch_label_spec(a) == "off"@) == (a is Off),
        (safesearch_label_spec(a) == "moderate"@) == (a is Moderate),
        (safesearch_label_spec(a) == "strict"@) == (a is Strict),
        safesearch_label_spec(a) == safesearch_label_spec(b) ==> a == b,
{
    reveal_strlit("off");
    reveal_strlit("moderate");
    reveal_strlit("strict");
    assert("off"@.len() == 3 && "moderate"@.len() == 8 && "strict"@.len() == 6);
}

impl BraveResult {
    /// Converts the result into a hit.
    pub fn into_hit(self) -> (h: SearchHit)
        ensures
            h == brave_hit(self),
    {
        SearchHit {
            title: self.title,
            url: self.url,
            description: keep_non_empty(self.description),
            published_at: self.age,
            engine: None,
            score: None,
        }
    }
}

/// The first `limit` results of a section, filed under `source`.
pub open spec fn section_items(source: SearchSource, section: Option<BraveSection>, limit: usize) -> Seq<(SearchSource, SearchHit)> {
    match section {
        Some(s) => {
            let n = min_usize(s.results@.len() as usize, limit);
            s.results@.take(n as int).map_values(|x: BraveResult| (source, brave_hit(x)))
        },
        None => Seq::empty(),
    }
}

/// Room left in a section of `held` hits under `limit`.
pub open spec fn room(held: nat, limit: usize) -> usize {
    if held <= limit {
        (limit - held) as usize
    } else {
        0
    }
}

/// The sections after a reply is added to `t`: its web results when the
/// query asks for web results and its news results when it asks for news,
/// each while its section holds fewer than `limit` hits.
pub open spec fn page_sections(t: Sections, q: SearchQuery, body: BraveBody) -> Sections {
    let after_web = if q.sources@.contains(SearchSource::Web) {
        push_all(t, section_items(SearchSource::Web, body.web, room(t.0.len(), q.limit)))
    } else {
        t
    };
    if q.sources@.contains(SearchSource::News) {
        push_all(
            after_web,
            section_items(SearchSource::News, body.news, room(after_web.1.len(), q.limit)),
        )
    } else {
        after_web
    }
}

/// The hits a reply section's results become, in the reply's order.
pub open spec fn results_hits(section: Option<BraveSection>) -> Seq<SearchHit> {
    match section {
        Some(s) => s.results@.map_values(|x: BraveResult| brave_hit(x)),
        None => Seq::empty(),
    }
}

/// The items of one reply section are that section's first results, in
/// order, as their hits, all filed under the section's source.
proof fn lemma_section_items_hits(source: SearchSource, other: SearchSource, section: Option<BraveSection>, limit: usize)
    ensures
        source_hits(section_items(source, section, limit), source) == results_hits(section).take(
            min_usize(results_hits(section).len() as usize, limit) as int,
        ),
        other != source ==> source_hits(section_items(source, section, limit), other) == Seq::<SearchHit>::empty(),
{
    let items = section_items(source, section, limit);
    let h = results_hits(section);
    let k = min_usize(h.len() as usize, limit) as int;
    assert forall|i: int| 0 <= i < items.len() implies (#[trigger] items[i]).0 == source by {
    }
    lemma_source_hits_uniform(items, source, other);
    match section {
        Some(sec) => {
            let rs = sec.results@;
            assert(h.len() == rs.len());
            assert(items.len() == k);
            assert forall|i: int| 0 <= i < k implies source_hits(items, source)[i] == #[trigger] h.take(k)[i] by {
                assert(items[i].1 == brave_hit(rs.take(k)[i]));
                assert(rs.take(k)[i] == rs[i]);
                assert(h[i] == brave_hit(rs[i]));
            }
            assert(source_hits(items, source) =~= h.take(k));
        },
        None => {
            assert(source_hits(items, source) =~= h.take(k));
        },
    }
}

/// Adding a reply keeps each section's hits in front, in order, and puts
/// after them the reply's results for that section (web, news) in the
/// reply's order, as many as fit under the limit, when the query asks for
/// that source; otherwise the section is unchanged. Images never change.
pub proof fn lemma_page_sections_order(t: Sections, q: SearchQuery, body: BraveBody)
    requires
        within(t, q.limit as nat),
    ensures
        page_sections(t, q, body).0 == if q.sources@.contains(SearchSource::Web) {
            t.0 + results_hits(body.web).take(
                min_usize(results_hits(body.web).len() as usize, (q.limit - t.0.len()) as usize) as int,
            )
        } else {
            t.0
        },
        page_sections(t, q, body).1 == if q.sources@.contains(SearchSource::News) {
            t.1 + results_hits(body.news).take(
                min_usize(results_hits(body.news).len() as usize, (q.limit - t.1.len()) as usize) as int,
            )
        } else {
            t.1
        },
        page_sections(t, q, body).2 == t.2,
{
    let wi = section_items(SearchSource::Web, body.web, room(t.0.len(), q.limit));
    let after_web = if q.sources@.contains(SearchSource::Web) {
        push_all(t, wi)
    } else {
        t
    };
    if q.sources@.contains(SearchSource::Web) {
        lemma_push_all_sections(t, wi, SearchSource::Web);
        lemma_push_all_sections(t, wi, SearchSource::News);
        lemma_push_all_sections(t, wi, SearchSource::Images);
        lemma_section_items_hits(SearchSource::Web, SearchSource::News, body.web, room(t.0.len(), q.limit));
        lemma_section_items_hits(SearchSource::Web, SearchSource::Images, body.web, room(t.0.len(), q.limit));
        assert(t.1 + Seq::<SearchHit>::empty() =~= t.1);
        assert(t.2 + Seq::<SearchHit>::empty() =~= t.2);
    }
    assert(after_web.1 == t.1 && after_web.2 == t.2);
    let ni = section_items(SearchSource::News, body.news, room(after_web.1.len(), q.limit));
    if q.sources@.contains(SearchSource::News) {
        lemma_push_all_sections(after_web, ni, SearchSource::Web);
        lemma_push_all_sections(after_web, ni, SearchSource::News);
        lemma_push_all_sections(after_web, ni, SearchSource::Images);
        lemma_section_items_hits(SearchSource::News, SearchSource::Web, body.news, room(after_web.1.len(), q.limit));
        lemma_section_items_hits(SearchSource::News, SearchSource::Images, body.news, room(after_web.1.len(), q.limit));
        assert(after_web.0 + Seq::<SearchHit>::empty() =~= after_web.0);
        assert(after_web.2 + Seq::<SearchHit>::empty() =~= after_web.2);
    }
}

/// Adding the items of one section, at most `room` of them, keeps every
/// section within the limit.
proof fn lemma_section_within(t: Sections, source: SearchSource, section: Option<BraveSection>, limit: usize)
    requires
        within(t, limit as nat),
    ensures
        within(
            push_all(t, section_items(source, section, room(section_of(t, source).len(), limit))),
            limit as nat,
        ),
        section_of(
            push_all(t, section_items(source, section, room(section_of(t, source).len(), limit))),
            source,
        ).len() <= limit,
{
    let r = room(section_of(t, source).len(), limit);
    let items = section_items(source, section, r);
    match section {
        Some(sec) => {
            let n = min_usize(sec.results@.len() as usize, r);
            assert(items.len() == n);
        },
        None => {},
    }
    assert(items.len() <= r);
    assert forall|i: int| 0 <= i < items.len() implies (#[trigger] items[i]).0 == source by {}
    lemma_push_all_source(t, items, source);
    let t2 = push_all(t, items);
    assert(section_of(t, source).len() <= limit);
    assert(section_of(t2, source).len() <= limit);
    if source != SearchSource::Web {
        assert(section_of(t2, SearchSource::Web) == section_of(t, SearchSource::Web));
    }
    if source != SearchSource::News {
        assert(section_of(t2, SearchSource::News) == section_of(t, SearchSource::News));
    }
    if source != SearchSource::Images {
        assert(section_of(t2, SearchSource::Images) == section_of(t, SearchSource::Images));
    }
    assert(t2.0 == section_of(t2, SearchSource::Web));
    assert(t2.1 == section_of(t2, SearchSource::News));
    assert(t2.2 == section_of(t2, SearchSource::Images));
}

/// Appending items that all belong to `source` grows that section by their
/// number and leaves the others alone.
proof fn lemma_push_all_source(t: Sections, items: Seq<(SearchSource, SearchHit)>, source: SearchSource)
    requires
        forall|i: int| 0 <= i < items.len() ==> (#[trigger] items[i]).0 == source,
    ensures
        section_of(push_all(t, items), source).len() == section_of(t, source).len() + items.len(),
        forall|s: SearchSource| s != source ==> section_of(push_all(t, items), s) == section_of(t, s),
    decreases items.len(),
{
    if items.len() > 0 {
        assert forall|i: int| 0 <= i < items.drop_last().len() implies (#[trigger] items.drop_last()[i]).0
            == source by {
            assert(items.drop_last()[i] == items[i]);
        }
        lemma_push_all_source(t, items.drop_last(), source);
        assert(items.last().0 == source);
    }
}

/// Adds a reply's sections to `response`.
fn push_page(response: &mut SearchResponse, query: &SearchQuery, body: BraveBody)
    requires
        within(sections(*old(response)), query.limit as nat),
    ensures
        same_header(*old(response), *final(response)),
        sections(*final(response)) == page_sections(sections(*old(response)), *query, body),
        within(sections(*final(response)), query.limit as nat),
{
    let BraveBody { web, news } = body;
    let ghost t0 = sections(*response);
    if sources_contain(&query.sources, SearchSource::Web) {
        let held = response.web.len();
        let room_web = if held <= query.limit {
            query.limit - held
        } else {
            0
        };
        proof {
            lemma_section_within(t0, SearchSource::Web, web, query.limit);
        }
        push_section(response, SearchSource::Web, web, room_web);
    }
    let ghost t1 = sections(*response);
    if sources_contain(&query.sources, SearchSource::News) {
        let held = response.news.len();
        let room_news = if held <= query.limit {
            query.limit - held
        } else {
            0
        };
        proof {
            lemma_section_within(t1, SearchSource::News, news, query.limit);
        }
        push_section(response, SearchSource::News, news, room_news);
    }
}

/// Appends the first `limit` results of `section` under `source`.
pub fn push_section(response: &mut SearchResponse, source: SearchSource, section: Option<BraveSection>, limit: usize)
    ensures
        same_header(*old(response), *final(response)),
        sections(*final(response)) == push_all(sections(*old(response)), section_items(source, section, limit)),
{
    let ghost r0 = *response;
    match section {
        None => {
            assert(sections(*response) =~= push_all(sections(r0), Seq::empty()));
        },
        Some(sec) => {
            let ghost items = sec.results@;
            let n = if sec.results.len() < limit {
                sec.results.len()
            } else {
                limit
            };
            let mut results = sec.results;
            let mut i: usize = 0;
            while i < n
                invariant
                    0 <= i <= n <= items.len(),
                    n == min_usize(items.len() as usize, limit),
                    results@ == items.subrange(i as int, items.len() as int),
                    same_header(r0, *response),
                    sections(*response) == push_all(
                        sections(r0),
                        items.take(i as int).map_values(|x: BraveResult| (source, brave_hit(x))),
                    ),
                decreases n - i,
            {
                let raw = results.remove(0);
                proof {
                    assert(raw == items[i as int]);
                    assert(items.take(i + 1).map_values(|x: BraveResult| (source, brave_hit(x))).drop_last()
                        =~= items.take(i as int).map_values(|x: BraveResult| (source, brave_hit(x))));
                    assert(items.subrange(i + 1, items.len() as int) =~= results@);
                }
                response.push(source, raw.into_hit());
                i += 1;
            }
        },
    }
}

impl BraveBuilder {
    /// The key given.
    pub closed spec fn spec_api_key(&self) -> Seq<char> {
        self.api_key@
    }

    /// The base URL given.
    pub closed spec fn spec_base_url(&self) -> Seq<char> {
        self.base_url@
    }

    /// The HTTP settings given, if any.
    pub closed spec fn spec_http(&self) -> Option<HttpConfig> {
        self.http
    }

    /// The retry policy given, if any.
    pub closed spec fn spec_retry(&self) -> Option<RetryPolicy> {
        self.retry
    }

    /// Overrides the API base URL (defaults to [`DEFAULT_BASE_URL`]).
    pub fn base_url(self, url: &str) -> (b: Self)
        ensures
            b.spec_base_url() == url@,
            b.spec_api_key() == self.spec_api_key(),
            b.spec_http() == self.spec_http(),
            b.spec_retry() == self.spec_retry(),
    {
        BraveBuilder { base_url: url.to_owned(), ..self }
    }

    /// Supplies a shared [`HttpConfig`].
    pub fn http(self, http: HttpConfig) -> (b: Self)
        ensures
            b.spec_http() == Some(http),
            b.spec_base_url() == self.spec_base_url(),
            b.spec_api_key() == self.spec_api_key(),
            b.spec_retry() == self.spec_retry(),
    {
        BraveBuilder { http: Some(http), ..self }
    }

    /// Overrides the retry policy.
    pub fn retry(self, policy: RetryPolicy) -> (b: Self)
        ensures
            b.spec_retry() == Some(policy),
            b.spec_base_url() == self.spec_base_url(),
            b.spec_api_key() == self.spec_api_key(),
            b.spec_http() == self.spec_http(),
    {
        BraveBuilder { retry: Some(policy), ..self }
    }

    /// Builds the provider.
    ///
    /// # Errors
    ///
    /// Returns [`SearchError::Config`] if the base URL is invalid or the
    /// default HTTP client cannot be constructed.
    pub fn build(self) -> (r: Result<Brave, SearchError>)
        ensures
            r matches Ok(p) ==> (self.spec_http() matches Some(h) ==> p.spec_http() == h),
            parsed_url(self.spec_base_url()) matches Err(m) ==> (r matches Err(
                SearchError::Config { message },
            ) && message@ == "invalid Brave base URL: "@ + m),
            parsed_url(self.spec_base_url()) matches Ok(u) ==> match r {
                Ok(p) => p.spec_base_url() == u && p.spec_api_key() == self.spec_api_key() && retry_applied(self.spec_retry(), p.spec_retry_policy()),
                Err(e) => self.spec_http() is None && client_build_error(e),
            },
    {
        let base_url = match parse_base_url(self.base_url.as_str(), "invalid Brave base URL: ") {
            Ok(u) => u,
            Err(e) => return Err(e),
        };
        let http = match resolve_http(self.http) {
            Ok(h) => h,
            Err(e) => return Err(e),
        };
        Ok(Brave { http, base_url, api_key: self.api_key, retry_policy: resolve_retry(self.retry) })
    }
}

} // verus!
