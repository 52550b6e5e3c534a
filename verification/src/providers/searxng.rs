//! `SearXNG` provider.
//!
//! `SearXNG` is a free, open-source metasearch engine that aggregates results
//! from dozens of backends. It requires no API key, but the caller must
//! supply an instance URL.
//!
//! `SearXNG` returns about 30 results per page; a search transparently
//! paginates (up to [`MAX_PAGES`] pages) when the query's limit exceeds that.
//! The pagination runs as a [`SearxngStep`] state machine: the caller sends
//! each requested page and feeds the decoded results back.

use vstd::prelude::*;

use crate::encoding::{encode_pairs, pairs_text, pairs_view};
use crate::error::SearchError;
use crate::http::{client_build_error, resolve_http, HttpConfig};
use crate::providers::common::{empty_query, empty_query_error, resolve_retry, HttpRequest, Method};
use crate::query::{safesearch_value, searxng_range_name, SearchQuery, SearchSource};
use crate::response::{
    lemma_push_capped_sections, lemma_push_capped_within, push_capped, same_header, section_of,
    sections, sections_len, source_hits, within, SearchHit, SearchResponse, Sections,
};
use crate::retry::{retry_applied, RetryPolicy};
use crate::text::{decimal, decimal_string, join_spec, keep_non_empty, non_empty, opt_string, push_char, push_str, str_eq};
use crate::urls::{join_url, joined_url, parse_url, parsed_url};

verus! {

/// Provider identifier.
pub const PROVIDER_ID: &'static str = "searxng";

/// Upstream default results per page (instance-dependent; 30 is a safe floor).
pub const RESULTS_PER_PAGE: usize = 30;

/// Safety cap to avoid runaway pagination against mis-configured instances.
pub const MAX_PAGES: u32 = 5;

/// `SearXNG` search provider.
#[derive(Debug, Clone)]
pub struct SearXNG {
    http: HttpConfig,
    base_url: String,
    retry_policy: RetryPolicy,
}

/// Typed builder for [`SearXNG`].
#[derive(Debug)]
pub struct SearXNGBuilder {
    base_url: String,
    http: Option<HttpConfig>,
    retry: Option<RetryPolicy>,
}

impl SearXNG {
    /// The instance URL, as the URL parser serialised it.
    pub closed spec fn spec_base_url(&self) -> Seq<char> {
        self.base_url@
    }

    /// The retry policy applied to every page request.
    pub closed spec fn spec_retry_policy(&self) -> RetryPolicy {
        self.retry_policy
    }

    /// Creates a new provider using the given `base_url` and the default
    /// shared HTTP client.
    ///
    /// # Errors
    ///
    /// Returns [`SearchError::Config`] if `base_url` is not a valid URL or
    /// the default HTTP client cannot be built.
    pub fn new(base_url: &str) -> (r: Result<Self, SearchError>)
        ensures
            parsed_url(base_url@) matches Err(m) ==> (r matches Err(SearchError::Config {
                message,
            }) && message@ == "invalid SearXNG base URL: "@ + m),
            r matches Ok(p) ==> parsed_url(base_url@) == Ok::<Seq<char>, Seq<char>>(
                p.spec_base_url(),
            ),
    {
        SearXNG::builder(base_url).build()
    }

    /// Starts a typed builder for fine-grained configuration.
    pub fn builder(base_url: &str) -> (b: SearXNGBuilder)
        ensures
            b.spec_base_url() == base_url@,
            b.spec_http() is None,
            b.spec_retry() is None,
    {
        SearXNGBuilder { base_url: base_url.to_owned(), http: None, retry: None }
    }

    /// The shared HTTP settings held.
    pub closed spec fn spec_http(&self) -> HttpConfig {
        self.http
    }

    /// Shared HTTP settings.
    pub fn http(&self) -> (h: &HttpConfig)
        ensures
            *h == self.spec_http(),
    {
        &self.http
    }

    /// The retry policy applied to every page request.
    pub fn retry_policy(&self) -> (p: RetryPolicy)
        ensures
            p == self.spec_retry_policy(),
    {
        self.retry_policy
    }

    /// The instance URL.
    pub fn base_url(&self) -> (s: &str)
        ensures
            s@ == self.spec_base_url(),
    {
        self.base_url.as_str()
    }

    /// The `/search` endpoint for one page of results.
    ///
    /// # Errors
    ///
    /// Returns [`SearchError::Config`] when the endpoint cannot be resolved
    /// against the base URL.
    pub fn build_endpoint(&self, query: &SearchQuery, pageno: u32) -> (r: Result<
        String,
        SearchError,
    >)
        ensures
            endpoint_result(r, endpoint_spec(self.spec_base_url(), *query, pageno)),
    {
        match join_url(self.base_url.as_str(), "search") {
            Ok(joined) => {
                let pairs = page_pairs(query, pageno);
                let encoded = encode_pairs(&pairs);
                let mut url = joined;
                push_char(&mut url, '?');
                push_str(&mut url, encoded.as_str());
                assert(url@ =~= joined@ + seq!['?'] + pairs_text(searxng_pairs(*query, pageno)));
                Ok(url)
            },
            Err(e) => {
                let mut message = String::new();
                push_str(&mut message, "cannot build /search endpoint: ");
                push_str(&mut message, e.as_str());
                assert(message@ =~= "cannot build /search endpoint: "@ + e@);
                Err(SearchError::Config { message })
            },
        }
    }

    /// The request for one page of results.
    pub fn page_request(&self, query: &SearchQuery, pageno: u32) -> (r: Result<
        HttpRequest,
        SearchError,
    >)
        ensures
            request_result(r, endpoint_spec(self.spec_base_url(), *query, pageno)),
    {
        match self.build_endpoint(query, pageno) {
            Ok(url) => Ok(HttpRequest { method: Method::Get, url, headers: Vec::new(), body: None }),
            Err(e) => Err(e),
        }
    }

    /// Starts a search.
    ///
    /// A blank query is rejected with [`SearchError::Config`]; otherwise the
    /// first page is requested (unless the limit is already met).
    pub fn start(&self, query: SearchQuery) -> (step: SearxngStep)
        ensures
            !query.valid() ==> (step matches SearxngStep::Done(Err(e)) && empty_query_error(e)),
            query.valid() ==> continues_with(
                step,
                self.spec_base_url(),
                query,
                1,
                |r: SearchResponse|
                    r.query@ == query.query@ && r.provider == PROVIDER_ID && r.answer is None
                        && r.elapsed_ms == 0 && sections_len(sections(r)) == 0,
            ),
            step matches SearxngStep::Done(Ok(r)) ==> within(sections(r), query.limit as nat),
    {
        if !query.is_valid() {
            return SearxngStep::Done(Err(empty_query()));
        }
        let response = SearchResponse::new(query.query.as_str(), PROVIDER_ID);
        advance(self, query, response, 1)
    }
}

impl SearXNGBuilder {
    /// The base URL given.
    pub closed spec fn spec_base_url(&self) -> Seq<char> {
        self.base_url@
    }

    /// The HTTP settings given, if any.
    pub closed spec fn spec_http(&self) -> Option<HttpConfig> {
        self.http
    }

    /// The retry policy given, if any.
    pub closed spec fn spec_retry(&self) -> Option<RetryPolicy> {
        self.retry
    }

    /// Supplies a shared [`HttpConfig`].
    pub fn http(self, http: HttpConfig) -> (b: Self)
        ensures
            b.spec_http() == Some(http),
            b.spec_base_url() == self.spec_base_url(),
            b.spec_retry() == self.spec_retry(),
    {
        SearXNGBuilder { http: Some(http), ..self }
    }

    /// Overrides the retry policy.
    pub fn retry(self, policy: RetryPolicy) -> (b: Self)
        ensures
            b.spec_retry() == Some(policy),
            b.spec_base_url() == self.spec_base_url(),
            b.spec_http() == self.spec_http(),
    {
        SearXNGBuilder { retry: Some(policy), ..self }
    }

    /// Builds the provider.
    ///
    /// # Errors
    ///
    /// Returns [`SearchError::Config`] if the base URL is invalid or the
    /// default HTTP client cannot be constructed.
    pub fn build(self) -> (r: Result<SearXNG, SearchError>)
        ensures
            r matches Ok(p) ==> (self.spec_http() matches Some(h) ==> p.spec_http() == h),
            parsed_url(self.spec_base_url()) matches Err(m) ==> (r matches Err(
                SearchError::Config { message },
            ) && message@ == "invalid SearXNG base URL: "@ + m),
            parsed_url(self.spec_base_url()) matches Ok(u) ==> match r {
                Ok(p) => p.spec_base_url() == u && retry_applied(self.spec_retry(), p.spec_retry_policy()),
                Err(e) => self.spec_http() is None && client_build_error(e),
            },
    {
        match parse_url(self.base_url.as_str()) {
            Ok(base_url) => {
                let http = match resolve_http(self.http) {
                    Ok(h) => h,
                    Err(e) => return Err(e),
                };
                Ok(SearXNG { http, base_url, retry_policy: resolve_retry(self.retry) })
            },
            Err(e) => {
                let mut message = String::new();
                push_str(&mut message, "invalid SearXNG base URL: ");
                push_str(&mut message, e.as_str());
                Err(SearchError::Config { message })
            },
        }
    }
}

/// SearXNG category name of a source.
pub open spec fn category_of(s: SearchSource) -> Seq<char> {
    match s {
        SearchSource::Web => "general"@,
        SearchSource::News => "news"@,
        SearchSource::Images => "images"@,
    }
}

/// The categories `general`, `news` and `images` each stand for exactly
/// one source (web, news, images), so distinct sources ask for distinct
/// categories.
pub proof fn lemma_categories(a: SearchSource, b: SearchSource)
    ensures
        (category_of(a) == "general"@) == (a is Web),
        (category_of(a) == "news"@) == (a is News),
        (category_of(a) == "images"@) == (a is Images),
        category_of(a) == category_of(b) ==> a == b,
{
    reveal_strlit("general");
    reveal_strlit("news");
    reveal_strlit("images");
    assert("general"@.len() == 7 && "news"@.len() == 4 && "images"@.len() == 6);
}

/// Sources in order of first occurrence, each once.
pub open spec fn distinct_sources(s: Seq<SearchSource>) -> Seq<SearchSource>
    decreases s.len(),
{
    if s.len() == 0 {
        Seq::empty()
    } else if distinct_sources(s.drop_last()).contains(s.last()) {
        distinct_sources(s.drop_last())
    } else {
        distinct_sources(s.drop_last()).push(s.last())
    }
}

/// The `categories` parameter: distinct category names joined with `,`.
pub open spec fn categories_spec(s: Seq<SearchSource>) -> Seq<char> {
    join_spec(distinct_sources(s).map_values(|x: SearchSource| category_of(x)), ',')
}

/// Distinct SearXNG category names of `sources`, comma-separated, in order
/// of first occurrence.
pub fn build_categories(sources: &[SearchSource]) -> (r: String)
    ensures
        r@ == categories_spec(sources@),
{
    let mut out = String::new();
    let mut seen_web = false;
    let mut seen_news = false;
    let mut seen_images = false;
    let mut i: usize = 0;
    while i < sources.len()
        invariant
            0 <= i <= sources@.len(),
            seen_web == distinct_sources(sources@.take(i as int)).contains(SearchSource::Web),
            seen_news == distinct_sources(sources@.take(i as int)).contains(SearchSource::News),
            seen_images == distinct_sources(sources@.take(i as int)).contains(
                SearchSource::Images,
            ),
            out@ == categories_spec(sources@.take(i as int)),
        decreases sources@.len() - i,
    {
        let s = sources[i];
        let ghost prev = distinct_sources(sources@.take(i as int));
        assert(sources@.take(i + 1).drop_last() =~= sources@.take(i as int));
        assert(sources@.take(i + 1).last() == s);
        let already = match s {
            SearchSource::Web => seen_web,
            SearchSource::News => seen_news,
            SearchSource::Images => seen_images,
        };
        if !already {
            let any = seen_web || seen_news || seen_images;
            proof {
                if prev.len() > 0 {
                    let x = prev[0];
                    assert(prev.contains(x));
                }
            }
            if any {
                push_char(&mut out, ',');
            }
            let name = match s {
                SearchSource::Web => "general",
                SearchSource::News => "news",
                SearchSource::Images => "images",
            };
            push_str(&mut out, name);
            match s {
                SearchSource::Web => seen_web = true,
                SearchSource::News => seen_news = true,
                SearchSource::Images => seen_images = true,
            }
            proof {
                let np = prev.push(s);
                assert(np.map_values(|x: SearchSource| category_of(x)).drop_last() =~= prev.map_values(
                    |x: SearchSource| category_of(x),
                ));
                assert(forall|y: SearchSource| np.contains(y) <==> (prev.contains(y) || y == s)) by {
                    assert forall|y: SearchSource| np.contains(y) implies (prev.contains(y) || y
                        == s) by {
                        let k = choose|k: int| 0 <= k < np.len() && np[k] == y;
                        if k < prev.len() {
                            assert(prev[k] == y);
                        }
                    }
                    assert forall|y: SearchSource| (prev.contains(y) || y == s) implies np.contains(
                        y,
                    ) by {
                        if y == s {
                            assert(np[prev.len() as int] == y);
                        } else {
                            let k = choose|k: int| 0 <= k < prev.len() && prev[k] == y;
                            assert(np[k] == y);
                        }
                    }
                }
                assert(out@ =~= categories_spec(sources@.take(i + 1)));
            }
        }
        i += 1;
    }
    assert(sources@.take(sources@.len() as int) =~= sources@);
    out
}

/// Source a result is filed under, by its SearXNG category.
pub open spec fn source_for_category(category: Option<Seq<char>>) -> SearchSource {
    match category {
        Some(c) => if c == "news"@ {
            SearchSource::News
        } else if c == "images"@ {
            SearchSource::Images
        } else {
            SearchSource::Web
        },
        None => SearchSource::Web,
    }
}

/// A result is filed under news exactly when its category is `news`,
/// under images exactly when it is `images`, and under web otherwise
/// (another category, or none).
pub proof fn lemma_category_sources(category: Option<Seq<char>>)
    ensures
        (source_for_category(category) is News) == (category == Some("news"@)),
        (source_for_category(category) is Images) == (category == Some("images"@)),
        (source_for_category(category) is Web) == (category != Some("news"@) && category
            != Some("images"@)),
{
    reveal_strlit("news");
    reveal_strlit("images");
    assert("news"@.len() != "images"@.len());
}

/// The hits a page files under a source are the hits of that page's
/// results whose category selects the source, in page order.
pub proof fn lemma_filed_hits(rs: Seq<SearxngResult>, source: SearchSource)
    ensures
        source_hits(rs.map_values(|x: SearxngResult| filed(x)), source) == rs.filter(
            |x: SearxngResult| source_for_category(opt_string(x.category)) == source,
        ).map_values(|x: SearxngResult| searxng_hit(x)),
    decreases rs.len(),
{
    reveal(Seq::filter);
    let f = |x: SearxngResult| filed(x);
    let p = |x: SearxngResult| source_for_category(opt_string(x.category)) == source;
    let g = |x: SearxngResult| searxng_hit(x);
    if rs.len() == 0 {
        assert(rs.map_values(f) =~= Seq::empty());
        assert(rs.filter(p).map_values(g) =~= Seq::empty());
    } else {
        let d = rs.drop_last();
        lemma_filed_hits(d, source);
        assert(rs.map_values(f).drop_last() =~= d.map_values(f));
        assert(rs.map_values(f).last() == filed(rs.last()));
        if p(rs.last()) {
            assert(rs.filter(p) == d.filter(p).push(rs.last()));
            assert(rs.filter(p).map_values(g) =~= d.filter(p).map_values(g).push(searxng_hit(rs.last())));
        } else {
            assert(rs.filter(p) == d.filter(p));
        }
    }
}

/// Filing a page keeps each section's hits in front, in order, and puts
/// after them, in page order, the page's results whose category selects
/// that section, as many as fit below `limit`.
pub proof fn lemma_page_filing(t: Sections, rs: Seq<SearxngResult>, limit: nat, source: SearchSource)
    requires
        within(t, limit),
    ensures
        ({
            let page = rs.filter(
                |x: SearxngResult| source_for_category(opt_string(x.category)) == source,
            ).map_values(|x: SearxngResult| searxng_hit(x));
            let room = limit - section_of(t, source).len();
            section_of(push_capped(t, rs.map_values(|x: SearxngResult| filed(x)), limit), source)
                == section_of(t, source) + page.take(
                if page.len() <= room {
                    page.len() as int
                } else {
                    room
                },
            )
        }),
{
    lemma_filed_hits(rs, source);
    lemma_push_capped_sections(t, rs.map_values(|x: SearxngResult| filed(x)), limit, source);
}

/// Files a result under `news`, `images` or (for anything else) `web`.
pub fn classify_source(category: Option<&str>) -> (s: SearchSource)
    ensures
        s == source_for_category(
            match category {
                Some(c) => Some(c@),
                None => None,
            },
        ),
{
    match category {
        Some(c) => if str_eq(c, "news") {
            SearchSource::News
        } else if str_eq(c, "images") {
            SearchSource::Images
        } else {
            SearchSource::Web
        },
        None => SearchSource::Web,
    }
}

/// One result of a SearXNG JSON page.
#[derive(Debug, Clone)]
pub struct SearxngResult {
    /// Result URL.
    pub url: String,
    /// Result title.
    pub title: String,
    /// Snippet.
    pub content: Option<String>,
    /// Upstream engine.
    pub engine: Option<String>,
    /// SearXNG category (`general`, `news`, `images`, …).
    pub category: Option<String>,
    /// Publication date (`publishedDate`).
    pub published_date: Option<String>,
}

/// The hit a SearXNG result becomes (an empty snippet is dropped).
pub open spec fn searxng_hit(r: SearxngResult) -> SearchHit {
    SearchHit {
        title: r.title,
        url: r.url,
        description: non_empty(r.content),
        published_at: r.published_date,
        engine: r.engine,
        score: None,
    }
}

/// A SearXNG result becomes a hit with the result's title, URL, engine and
/// publication date and no score; its snippet is the hit's description
/// exactly when the snippet is present and not empty.
pub proof fn lemma_searxng_hit_fields(r: SearxngResult)
    ensures
        searxng_hit(r).title == r.title,
        searxng_hit(r).url == r.url,
        searxng_hit(r).engine == r.engine,
        searxng_hit(r).published_at == r.published_date,
        searxng_hit(r).score is None,
        r.content matches Some(c) ==> (c@.len() > 0 ==> searxng_hit(r).description == Some(c)),
        searxng_hit(r).description matches Some(d) ==> r.content == Some(d) && d@.len() > 0,
{
}

/// The source and hit a SearXNG result is filed as.
pub open spec fn filed(r: SearxngResult) -> (SearchSource, SearchHit) {
    (source_for_category(opt_string(r.category)), searxng_hit(r))
}

impl SearxngResult {
    /// Converts the result into a hit.
    pub fn into_hit(self) -> (h: SearchHit)
        ensures
            h == searxng_hit(self),
    {
        SearchHit {
            title: self.title,
            url: self.url,
            description: keep_non_empty(self.content),
            published_at: self.published_date,
            engine: self.engine,
            score: None,
        }
    }
}

/// The query parameters of a page request.
pub open spec fn searxng_pairs(q: SearchQuery, pageno: u32) -> Seq<(Seq<char>, Seq<char>)> {
    let base = seq![
        ("q"@, q.query@),
        ("format"@, "json"@),
        ("pageno"@, decimal(pageno as nat)),
        ("safesearch"@, decimal(safesearch_value(q.safesearch) as nat)),
    ];
    let with_categories = if categories_spec(q.sources@).len() > 0 {
        base.push(("categories"@, categories_spec(q.sources@)))
    } else {
        base
    };
    let with_range = match q.time_range {
        Some(t) => with_categories.push(("time_range"@, searxng_range_name(t))),
        None => with_categories,
    };
    match q.language {
        Some(l) => with_range.push(("language"@, l@)),
        None => with_range,
    }
}

fn page_pairs(q: &SearchQuery, pageno: u32) -> (v: Vec<(String, String)>)
    ensures
        pairs_view(v@) == searxng_pairs(*q, pageno),
{
    let mut v: Vec<(String, String)> = Vec::new();
    v.push(("q".to_owned(), q.query.clone()));
    v.push(("format".to_owned(), "json".to_owned()));
    v.push(("pageno".to_owned(), decimal_string(pageno as u64)));
    v.push(("safesearch".to_owned(), decimal_string(q.safesearch.as_u8() as u64)));
    let categories = build_categories(q.sources.as_slice());
    if !categories.as_str().is_empty() {
        v.push(("categories".to_owned(), categories));
    }
    match q.time_range {
        Some(t) => v.push(("time_range".to_owned(), t.as_searxng().to_owned())),
        None => {},
    }
    match &q.language {
        Some(l) => v.push(("language".to_owned(), l.clone())),
        None => {},
    }
    assert(pairs_view(v@) =~= searxng_pairs(*q, pageno));
    v
}

/// The endpoint URL of a page: the base joined with `search`, then `?`
/// and the form-encoded parameters; `Err` with the resolution error's
/// message when joining fails.
pub open spec fn endpoint_spec(base: Seq<char>, q: SearchQuery, pageno: u32) -> Result<
    Seq<char>,
    Seq<char>,
> {
    match joined_url(base, "search"@) {
        Ok(j) => Ok(j + seq!['?'] + pairs_text(searxng_pairs(q, pageno))),
        Err(m) => Err(m),
    }
}

/// `r` is the endpoint, or the configuration error for a failed join.
pub open spec fn endpoint_result(r: Result<String, SearchError>, e: Result<Seq<char>, Seq<char>>) -> bool {
    match e {
        Ok(u) => r matches Ok(s) && s@ == u,
        Err(m) => r matches Err(SearchError::Config { message }) && message@
            == "cannot build /search endpoint: "@ + m,
    }
}

/// `r` is a plain `GET` of the endpoint, or the configuration error for a
/// failed join.
pub open spec fn request_result(r: Result<HttpRequest, SearchError>, e: Result<Seq<char>, Seq<char>>) -> bool {
    match e {
        Ok(u) => r matches Ok(req) && request_is(req, u),
        Err(m) => r matches Err(SearchError::Config { message }) && message@
            == "cannot build /search endpoint: "@ + m,
    }
}

/// A plain `GET` of `url`.
pub open spec fn request_is(req: HttpRequest, url: Seq<char>) -> bool {
    req.method == Method::Get && req.url@ == url && req.headers@.len() == 0 && req.body is None
}

/// A search in progress: the query, the hits gathered so far and the
/// number of the page being requested.
#[derive(Debug)]
pub struct SearxngSearch {
    query: SearchQuery,
    response: SearchResponse,
    page: u32,
}

/// Some requested source still holds fewer than `limit` hits.
pub open spec fn wants_more(t: Sections, sources: Seq<SearchSource>, limit: nat) -> bool {
    exists|i: int| 0 <= i < sources.len() && #[trigger] section_of(t, sources[i]).len() < limit
}

/// Whether some requested source still holds fewer than `limit` hits.
fn wants_more_exec(response: &SearchResponse, sources: &Vec<SearchSource>, limit: usize) -> (b:
    bool)
    ensures
        b == wants_more(sections(*response), sources@, limit as nat),
{
    let mut i: usize = 0;
    while i < sources.len()
        invariant
            0 <= i <= sources@.len(),
            forall|j: int|
                0 <= j < i ==> #[trigger] section_of(sections(*response), sources@[j]).len()
                    >= limit,
        decreases sources@.len() - i,
    {
        let n = match sources[i] {
            SearchSource::Web => response.web.len(),
            SearchSource::News => response.news.len(),
            SearchSource::Images => response.images.len(),
        };
        if n < limit {
            assert(section_of(sections(*response), sources@[i as int]).len() < limit);
            return true;
        }
        i += 1;
    }
    false
}

impl SearxngSearch {
    /// The query being answered.
    pub closed spec fn spec_query(&self) -> SearchQuery {
        self.query
    }

    /// The response gathered so far.
    pub closed spec fn spec_response(&self) -> SearchResponse {
        self.response
    }

    /// The page being requested.
    pub closed spec fn spec_page(&self) -> u32 {
        self.page
    }

    #[verifier::type_invariant]
    spec fn inv(self) -> bool {
        &&& wants_more(sections(self.response), self.query.sources@, self.query.limit as nat)
        &&& within(sections(self.response), self.query.limit as nat)
        &&& 1 <= self.page <= MAX_PAGES
        &&& self.response.provider == PROVIDER_ID
    }

    /// Feeds back the outcome of the last page request (after retries).
    ///
    /// An error ends the search with that error. Otherwise each result of
    /// the page is filed under its source while that source holds fewer
    /// than `limit` hits (the limit is per source) and dropped once it is
    /// full; the search ends on an empty page, on a short page (fewer than
    /// [`RESULTS_PER_PAGE`] results), once no requested source wants more
    /// hits, or after [`MAX_PAGES`] pages, and requests the next page
    /// otherwise.
    pub fn on_page(self, provider: &SearXNG, page: Result<Vec<SearxngResult>, SearchError>) -> (step:
        SearxngStep)
        ensures
            page matches Err(e) ==> step == SearxngStep::Done(Err(e)),
            page matches Ok(rs) ==> ({
                let q = self.spec_query();
                let r0 = self.spec_response();
                let grown = |r: SearchResponse|
                    same_header(r0, r) && sections(r) == push_capped(
                        sections(r0),
                        rs@.map_values(|x: SearxngResult| filed(x)),
                        q.limit as nat,
                    );
                if rs@.len() == 0 {
                    step == SearxngStep::Done(Ok(r0))
                } else if rs@.len() < RESULTS_PER_PAGE {
                    step matches SearxngStep::Done(Ok(r)) && grown(r)
                } else {
                    continues_with(step, provider.spec_base_url(), q, (self.spec_page() + 1) as u32, grown)
                }
            }),
            step matches SearxngStep::Done(Ok(r)) ==> within(sections(r), self.spec_query().limit as nat),
            step matches SearxngStep::Fetch { search, .. } ==> search.spec_query()
                == self.spec_query() && search.spec_page() == self.spec_page() + 1,
    {
        proof {
            use_type_invariant(&self);
        }
        let rs = match page {
            Ok(rs) => rs,
            Err(e) => return SearxngStep::Done(Err(e)),
        };
        if rs.len() == 0 {
            return SearxngStep::Done(Ok(self.response));
        }
        let page_size = rs.len();
        let SearxngSearch { query, mut response, page } = self;
        let ghost r0 = response;
        let ghost rsv = rs@;
        let ghost lim = query.limit as nat;
        let mut i: usize = 0;
        let mut rs = rs;
        assert(rs@ =~= rsv.subrange(0, rsv.len() as int));
        while i < page_size
            invariant
                0 <= i <= page_size == rsv.len(),
                rs@ == rsv.subrange(i as int, rsv.len() as int),
                lim == query.limit,
                same_header(r0, response),
                sections(response) == push_capped(
                    sections(r0),
                    rsv.take(i as int).map_values(|x: SearxngResult| filed(x)),
                    lim,
                ),
            decreases page_size - i,
        {
            let raw = rs.remove(0);
            proof {
                assert(raw == rsv[i as int]);
                assert(rsv.take(i + 1).map_values(|x: SearxngResult| filed(x)).drop_last()
                    =~= rsv.take(i as int).map_values(|x: SearxngResult| filed(x)));
                assert(rsv.subrange(i + 1, rsv.len() as int) =~= rs@);
            }
            let source = classify_source(
                match &raw.category {
                    Some(c) => Some(c.as_str()),
                    None => None,
                },
            );
            let held = match source {
                SearchSource::Web => response.web.len(),
                SearchSource::News => response.news.len(),
                SearchSource::Images => response.images.len(),
            };
            if held < query.limit {
                let hit = raw.into_hit();
                response.push(source, hit);
            }
            i += 1;
        }
        assert(rsv.take(page_size as int) =~= rsv);
        proof {
            lemma_push_capped_within(
                sections(r0),
                rsv.map_values(|x: SearxngResult| filed(x)),
                lim,
            );
        }
        if page_size < RESULTS_PER_PAGE {
            return SearxngStep::Done(Ok(response));
        }
        advance(provider, query, response, page + 1)
    }
}

/// What a SearXNG search does next.
#[derive(Debug)]
pub enum SearxngStep {
    /// Send `request` (retrying per the provider's policy), then pass the
    /// decoded results to [`SearxngSearch::on_page`] of `search`.
    Fetch {
        /// The page request.
        request: HttpRequest,
        /// The search waiting for that page.
        search: SearxngSearch,
    },
    /// The search is over.
    Done(Result<SearchResponse, SearchError>),
}

/// The search continues from a response satisfying `grown` at page `page`:
/// it requests that page while some requested source holds fewer than
/// `limit` hits and at most [`MAX_PAGES`] pages are asked for, and ends
/// with that response otherwise.
pub open spec fn continues_with(
    step: SearxngStep,
    base: Seq<char>,
    query: SearchQuery,
    page: u32,
    grown: spec_fn(SearchResponse) -> bool,
) -> bool {
    match step {
        SearxngStep::Fetch { request, search } => {
            &&& grown(search.spec_response())
            &&& wants_more(sections(search.spec_response()), query.sources@, query.limit as nat)
            &&& 1 <= page <= MAX_PAGES
            &&& search.spec_query() == query
            &&& search.spec_page() == page
            &&& endpoint_spec(base, query, page) matches Ok(u) && request_is(request, u)
        },
        SearxngStep::Done(Ok(r)) => grown(r) && (!wants_more(
            sections(r),
            query.sources@,
            query.limit as nat,
        ) || page > MAX_PAGES),
        SearxngStep::Done(Err(SearchError::Config { message })) => {
            &&& 1 <= page <= MAX_PAGES
            &&& endpoint_spec(base, query, page) matches Err(m) && message@
                == "cannot build /search endpoint: "@ + m
        },
        SearxngStep::Done(Err(_)) => false,
    }
}

/// Requests page `page` while some requested source wants more hits and
/// pages remain, and ends the search with `response` otherwise.
fn advance(provider: &SearXNG, query: SearchQuery, response: SearchResponse, page: u32) -> (step:
    SearxngStep)
    requires
        within(sections(response), query.limit as nat),
        1 <= page <= MAX_PAGES + 1,
        response.provider == PROVIDER_ID,
    ensures
        continues_with(
            step,
            provider.spec_base_url(),
            query,
            page,
            |r: SearchResponse| r == response,
        ),
        step matches SearxngStep::Done(Ok(r)) ==> within(sections(r), query.limit as nat),
        step matches SearxngStep::Fetch { search, .. } ==> search.spec_query() == query
            && search.spec_page() == page,
{
    if page <= MAX_PAGES && wants_more_exec(&response, &query.sources, query.limit) {
        match provider.page_request(&query, page) {
            Ok(request) => SearxngStep::Fetch {
                request,
                search: SearxngSearch { query, response, page },
            },
            Err(e) => SearxngStep::Done(Err(e)),
        }
    } else {
        SearxngStep::Done(Ok(response))
    }
}

} // verus!
