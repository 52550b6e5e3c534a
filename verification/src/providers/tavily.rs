//! Tavily Search API provider.
//!
//! AI-oriented search with LLM-friendly snippets. Requires an API token
//! (the `TAVILY_API_KEY` environment variable when built through the
//! client).

use vstd::prelude::*;

use crate::client::ENV_TAVILY_API_KEY;
use crate::error::{json_str, SearchError};
use crate::http::{client_build_error, resolve_http, HttpConfig};
use crate::providers::brave::{min_usize, sources_contain};
use crate::providers::common::{
    empty_query, empty_query_error, headers_view, join_endpoint, parse_base_url, push_header,
    resolve_retry, HttpRequest, Method,
};
use crate::query::{SearchQuery, SearchSource, TimeRange};
use crate::response::{lemma_push_all_sections, lemma_source_hits_uniform, push_all, same_header, section_of, sections, SearchHit, SearchResponse};
use crate::retry::{is_production, retry_applied, RetryPolicy};
use crate::secret::SecretString;
use crate::text::{decimal, is_blank, keep_non_empty, non_empty, push_decimal, push_json_string, push_str};
use crate::urls::{joined_url, parsed_url};

verus! {

/// Provider identifier.
pub const PROVIDER_ID: &'static str = "tavily";

/// Canonical Tavily API root URL.
pub const DEFAULT_BASE_URL: &'static str = "https://api.tavily.com";

/// Path of the search endpoint, relative to the base URL.
pub const SEARCH_PATH: &'static str = "search";

/// Tavily caps `max_results` at 20 per request.
pub const MAX_RESULTS: usize = 20;

/// Search topic Tavily should use.
#[derive(Debug, Clone, Copy, PartialEq, Eq, Structural)]
pub enum TavilyTopic {
    /// General web results (default).
    General,
    /// News-focused results.
    News,
    /// Finance-focused results.
    Finance,
}

/// Wire name of a topic.
pub open spec fn topic_name(t: TavilyTopic) -> Seq<char> {
    match t {
        TavilyTopic::General => "general"@,
        TavilyTopic::News => "news"@,
        TavilyTopic::Finance => "finance"@,
    }
}

/// The topic names `general`, `news` and `finance` each stand for exactly
/// one topic, so distinct topics send distinct names.
pub proof fn lemma_topic_names(a: TavilyTopic, b: TavilyTopic)
    ensures
        (topic_name(a) == "general"@) == (a is General),
        (topic_name(a) == "news"@) == (a is News),
        (topic_name(a) == "finance"@) == (a is Finance),
        topic_name(a) == topic_name(b) ==> a == b,
{
    reveal_strlit("general");
    reveal_strlit("news");
    reveal_strlit("finance");
    assert("general"@.len() == 7 && "news"@.len() == 4 && "finance"@.len() == 7);
    assert("general"@[0] == 'g' && "finance"@[0] == 'f');
}

impl TavilyTopic {
    /// Wire name of the topic.
    pub fn as_str(self) -> (s: &'static str)
        ensures
            s@ == topic_name(self),
    {
        match self {
            TavilyTopic::General => "general",
            TavilyTopic::News => "news",
            TavilyTopic::Finance => "finance",
        }
    }
}

/// Tavily's `time_range` value.
pub open spec fn time_range_label_spec(range: TimeRange) -> Seq<char> {
    match range {
        TimeRange::Day => "day"@,
        TimeRange::Week => "week"@,
        TimeRange::Month => "month"@,
        TimeRange::Year => "year"@,
    }
}

/// Tavily's `time_range` values `day`, `week`, `month` and `year` each
/// stand for exactly the range of that name, so distinct ranges send
/// distinct values.
pub proof fn lemma_time_range_labels(t: TimeRange, u: TimeRange)
    ensures
        (time_range_label_spec(t) == "day"@) == (t is Day),
        (time_range_label_spec(t) == "week"@) == (t is Week),
        (time_range_label_spec(t) == "month"@) == (t is Month),
        (time_range_label_spec(t) == "year"@) == (t is Year),
        time_range_label_spec(t) == time_range_label_spec(u) ==> t == u,
{
    reveal_strlit("day");
    reveal_strlit("week");
    reveal_strlit("month");
    reveal_strlit("year");
    assert("day"@.len() == 3 && "week"@.len() == 4 && "month"@.len() == 5 && "year"@.len() == 4);
    assert("week"@[0] == 'w' && "year"@[0] == 'y');
}

/// Tavily's `time_range` value.
pub fn time_range_label(range: TimeRange) -> (s: &'static str)
    ensures
        s@ == time_range_label_spec(range),
{
    match range {
        TimeRange::Day => "day",
        TimeRange::Week => "week",
        TimeRange::Month => "month",
        TimeRange::Year => "year",
    }
}

/// The topic inferred from a source list: `News` when news results are
/// requested, `General` otherwise.
pub open spec fn topic_for_spec(sources: Seq<SearchSource>) -> TavilyTopic {
    if sources.contains(SearchSource::News) {
        TavilyTopic::News
    } else {
        TavilyTopic::General
    }
}

/// The topic inferred from a source list.
pub fn topic_for(sources: &Vec<SearchSource>) -> (t: TavilyTopic)
    ensures
        t == topic_for_spec(sources@),
{
    if sources_contain(sources, SearchSource::News) {
        TavilyTopic::News
    } else {
        TavilyTopic::General
    }
}

/// Tavily Search API provider.
#[derive(Clone)]
pub struct Tavily {
    http: HttpConfig,
    base_url: String,
    api_key: SecretString,
    retry_policy: RetryPolicy,
    topic_override: Option<TavilyTopic>,
    include_answer: bool,
}

/// Typed builder for [`Tavily`].
pub struct TavilyBuilder {
    api_key: SecretString,
    base_url: String,
    http: Option<HttpConfig>,
    retry: Option<RetryPolicy>,
    topic: Option<TavilyTopic>,
    include_answer: bool,
}

/// `,"key":` followed by a JSON string, for an optional value.
pub open spec fn opt_field(key_prefix: Seq<char>, value: Option<Seq<char>>) -> Seq<char> {
    match value {
        Some(v) => key_prefix + json_str(v),
        None => Seq::empty(),
    }
}

/// The leading fields of the request body, up to `include_answer`.
pub open spec fn payload_head(q: SearchQuery, include_answer: bool) -> Seq<char> {
    "{\"query\":"@ + json_str(q.query@) + ",\"max_results\":"@ + decimal(
        min_usize(q.limit, MAX_RESULTS) as nat,
    ) + ",\"search_depth\":"@ + json_str("basic"@) + ",\"include_answer\":"@ + (if include_answer {
        "true"@
    } else {
        "false"@
    })
}

/// The JSON body of a search request (field order and omissions as
/// `serde_json` writes the request structure).
pub open spec fn payload_spec(q: SearchQuery, include_answer: bool, topic: TavilyTopic) -> Seq<char> {
    payload_head(q, include_answer) + opt_field(
        ",\"time_range\":"@,
        match q.time_range {
            Some(t) => Some(time_range_label_spec(t)),
            None => None,
        },
    ) + ",\"topic\":"@ + json_str(topic_name(topic)) + opt_field(
        ",\"country\":"@,
        match q.country {
            Some(c) => Some(c@),
            None => None,
        },
    ) + "}"@
}

fn push_field(s: &mut String, key_prefix: &str, value: &str)
    ensures
        final(s)@ == old(s)@ + key_prefix@ + json_str(value@),
{
    push_str(s, key_prefix);
    push_json_string(s, value);
    assert(final(s)@ =~= old(s)@ + key_prefix@ + json_str(value@));
}

fn push_head(s: &mut String, q: &SearchQuery, include_answer: bool)
    ensures
        final(s)@ == old(s)@ + payload_head(*q, include_answer),
{
    push_field(s, "{\"query\":", q.query.as_str());
    push_str(s, ",\"max_results\":");
    let n = if q.limit < MAX_RESULTS {
        q.limit
    } else {
        MAX_RESULTS
    };
    push_decimal(s, n as u64);
    push_field(s, ",\"search_depth\":", "basic");
    push_str(s, ",\"include_answer\":");
    if include_answer {
        push_str(s, "true");
    } else {
        push_str(s, "false");
    }
    assert(final(s)@ =~= old(s)@ + payload_head(*q, include_answer));
}

/// The JSON body of a search request.
pub fn payload(q: &SearchQuery, include_answer: bool, topic: TavilyTopic) -> (s: String)
    ensures
        s@ == payload_spec(*q, include_answer, topic),
{
    let mut s = String::new();
    push_head(&mut s, q, include_answer);
    let ghost p1 = s@;
    match q.time_range {
        Some(t) => push_field(&mut s, ",\"time_range\":", time_range_label(t)),
        None => {},
    }
    let ghost p2 = s@;
    assert(p2 =~= p1 + opt_field(
        ",\"time_range\":"@,
        match q.time_range {
            Some(t) => Some(time_range_label_spec(t)),
            None => None,
        },
    ));
    push_field(&mut s, ",\"topic\":", topic.as_str());
    let ghost p3 = s@;
    match &q.country {
        Some(c) => push_field(&mut s, ",\"country\":", c.as_str()),
        None => {},
    }
    let ghost p4 = s@;
    assert(p4 =~= p3 + opt_field(
        ",\"country\":"@,
        match q.country {
            Some(c) => Some(c@),
            None => None,
        },
    ));
    push_str(&mut s, "}");
    assert(s@ =~= payload_spec(*q, include_answer, topic));
    s
}

/// The request a search sends: a JSON `POST` with bearer authentication.
pub open spec fn tavily_request(req: HttpRequest, url: Seq<char>, key: Seq<char>, body: Seq<char>) -> bool {
    &&& req.method == Method::Post
    &&& req.url@ == url
    &&& headers_view(req.headers@) == seq![
        ("Authorization"@, "Bearer "@ + key),
        ("Content-Type"@, "application/json"@),
    ]
    &&& req.body matches Some(b) && b@ == body
}

impl Tavily {
    /// The API base URL, as the URL parser serialised it.
    pub closed spec fn spec_base_url(&self) -> Seq<char> {
        self.base_url@
    }

    /// The API key.
    pub closed spec fn spec_api_key(&self) -> Seq<char> {
        self.api_key@
    }

    /// The retry policy.
    pub closed spec fn spec_retry_policy(&self) -> RetryPolicy {
        self.retry_policy
    }

    /// The pinned topic, if any.
    pub closed spec fn spec_topic(&self) -> Option<TavilyTopic> {
        self.topic_override
    }

    /// Whether the LLM-generated answer is requested.
    pub closed spec fn spec_include_answer(&self) -> bool {
        self.include_answer
    }

    /// The topic used for a query: the pinned one, or the one inferred
    /// from its sources.
    pub open spec fn topic_of(&self, q: SearchQuery) -> TavilyTopic {
        match self.spec_topic() {
            Some(t) => t,
            None => topic_for_spec(q.sources@),
        }
    }

    /// Creates a provider pointing at the canonical Tavily endpoint.
    ///
    /// # Errors
    ///
    /// Returns [`SearchError::Config`] if the HTTP client cannot be built.
    pub fn new(api_key: SecretString) -> (r: Result<Self, SearchError>)
        ensures
            r matches Ok(p) ==> p.spec_api_key() == api_key@ && p.spec_topic() is None
                && !p.spec_include_answer() && parsed_url(DEFAULT_BASE_URL@) == Ok::<
                Seq<char>,
                Seq<char>,
            >(p.spec_base_url()) && is_production(p.spec_retry_policy()),
            parsed_url(DEFAULT_BASE_URL@) matches Err(m) ==> (r matches Err(SearchError::Config {
                message,
            }) && message@ == "invalid Tavily base URL: "@ + m),
            parsed_url(DEFAULT_BASE_URL@) is Ok ==> (r matches Err(e) ==> client_build_error(e)),
    {
        Tavily::builder(api_key).build()
    }

    /// Convenience constructor for tests and ad-hoc base URLs.
    ///
    /// # Errors
    ///
    /// Returns [`SearchError::Config`] if `base_url` is invalid or the HTTP
    /// client cannot be built.
    pub fn with_base_url(api_key: SecretString, base_url: &str) -> (r: Result<Self, SearchError>)
        ensures
            parsed_url(base_url@) matches Err(m) ==> (r matches Err(SearchError::Config {
                message,
            }) && message@ == "invalid Tavily base URL: "@ + m),
            r matches Ok(p) ==> p.spec_api_key() == api_key@ && parsed_url(base_url@) == Ok::<
                Seq<char>,
                Seq<char>,
            >(p.spec_base_url()),
    {
        Tavily::builder(api_key).base_url(base_url).build()
    }

    /// Starts a typed builder for fine-grained configuration.
    pub fn builder(api_key: SecretString) -> (b: TavilyBuilder)
        ensures
            b.spec_api_key() == api_key@,
            b.spec_base_url() == DEFAULT_BASE_URL@,
            b.spec_http() is None,
            b.spec_retry() is None,
            b.spec_topic() is None,
            !b.spec_include_answer(),
    {
        TavilyBuilder {
            api_key,
            base_url: DEFAULT_BASE_URL.to_owned(),
            http: None,
            retry: None,
            topic: None,
            include_answer: false,
        }
    }

    /// The shared HTTP settings held.
    pub closed spec fn spec_http(&self) -> HttpConfig {
        self.http
    }

    /// Shared HTTP settings.
    pub fn http(&self) -> (h: &HttpConfig)
        ensures
            *h == self.spec_http(),
    {
        &self.http
    }

    /// The retry policy applied to the request.
    pub fn retry_policy(&self) -> (p: RetryPolicy)
        ensures
            p == self.spec_retry_policy(),
    {
        self.retry_policy
    }

    /// The printable form of the provider, with the key redacted.
    pub fn debug_text(&self) -> (s: String)
        ensures
            s@ == "Tavily { base_url: "@ + self.spec_base_url() + ", api_key: [REDACTED], .. }"@,
    {
        let mut s = String::new();
        push_str(&mut s, "Tavily { base_url: ");
        push_str(&mut s, self.base_url.as_str());
        push_str(&mut s, ", api_key: [REDACTED], .. }");
        s
    }

    /// The topic used for a query.
    pub fn topic(&self, query: &SearchQuery) -> (t: TavilyTopic)
        ensures
            t == self.topic_of(*query),
    {
        match self.topic_override {
            Some(t) => t,
            None => topic_for(&query.sources),
        }
    }

    /// The request a search sends; the key travels only in the
    /// `Authorization` header, never in the body.
    ///
    /// # Errors
    ///
    /// [`SearchError::Config`] for a blank query or an endpoint that cannot
    /// be resolved; [`SearchError::MissingApiKey`] for a blank key.
    pub fn prepare(&self, query: &SearchQuery) -> (r: Result<HttpRequest, SearchError>)
        ensures
            !query.valid() ==> (r matches Err(e) && empty_query_error(e)),
            query.valid() && is_blank(self.spec_api_key()) ==> r == Err::<HttpRequest, SearchError>(
                SearchError::MissingApiKey { provider: PROVIDER_ID, env_var: ENV_TAVILY_API_KEY },
            ),
            query.valid() && !is_blank(self.spec_api_key()) ==> match joined_url(
                self.spec_base_url(),
                SEARCH_PATH@,
            ) {
                Ok(u) => r matches Ok(req) && tavily_request(
                    req,
                    u,
                    self.spec_api_key(),
                    payload_spec(*query, self.spec_include_answer(), self.topic_of(*query)),
                ),
                Err(m) => r matches Err(SearchError::Config { message }) && message@
                    == "cannot build Tavily endpoint: "@ + m,
            },
    {
        if !query.is_valid() {
            return Err(empty_query());
        }
        if self.api_key.is_empty() {
            return Err(
                SearchError::MissingApiKey { provider: PROVIDER_ID, env_var: ENV_TAVILY_API_KEY },
            );
        }
        let url = match join_endpoint(
            self.base_url.as_str(),
            SEARCH_PATH,
            "cannot build Tavily endpoint: ",
        ) {
            Ok(u) => u,
            Err(e) => return Err(e),
        };
        let topic = self.topic(query);
        let body = payload(query, self.include_answer, topic);
        let mut bearer = String::new();
        push_str(&mut bearer, "Bearer ");
        push_str(&mut bearer, self.api_key.expose());
        let mut headers: Vec<(String, String)> = Vec::new();
        assert(headers_view(headers@) =~= Seq::empty());
        push_header(&mut headers, "Authorization", bearer.as_str());
        push_header(&mut headers, "Content-Type", "application/json");
        assert(headers_view(headers@) =~= seq![
            ("Authorization"@, "Bearer "@ + self.spec_api_key()),
            ("Content-Type"@, "application/json"@),
        ]);
        Ok(HttpRequest { method: Method::Post, url, headers, body: Some(body) })
    }

    /// Builds the response from the decoded reply: a non-empty answer is
    /// kept, and every result is filed under news when the topic is news
    /// and under web otherwise.
    pub fn assemble(&self, query: &SearchQuery, body: TavilyBody) -> (r: SearchResponse)
        ensures
            r.query@ == query.query@,
            r.provider == PROVIDER_ID,
            r.answer == non_empty(body.answer),
            r.elapsed_ms == 0,
            sections(r) == push_all(
                (Seq::<SearchHit>::empty(), Seq::<SearchHit>::empty(), Seq::<SearchHit>::empty()),
                body.results@.map_values(|x: TavilyResult| (target_source(self.topic_of(*query)), tavily_hit(x))),
            ),
    {
        let topic = self.topic(query);
        let target = match topic {
            TavilyTopic::News => SearchSource::News,
            TavilyTopic::General | TavilyTopic::Finance => SearchSource::Web,
        };
        let mut result = SearchResponse::new(query.query.as_str(), PROVIDER_ID);
        let TavilyBody { results, answer } = body;
        result.answer = keep_non_empty(answer);
        let ghost r0 = result;
        let ghost items = results@;
        assert(sections(r0) =~= (Seq::<SearchHit>::empty(), Seq::<SearchHit>::empty(), Seq::<SearchHit>::empty()));
        let mut results = results;
        let n = results.len();
        let mut i: usize = 0;
        while i < n
            invariant
                0 <= i <= n == items.len(),
                results@ == items.subrange(i as int, items.len() as int),
                same_header(r0, result),
                sections(result) == push_all(
                    sections(r0),
                    items.take(i as int).map_values(|x: TavilyResult| (target, tavily_hit(x))),
                ),
            decreases n - i,
        {
            let raw = results.remove(0);
            proof {
                assert(raw == items[i as int]);
                assert(items.take(i + 1).map_values(|x: TavilyResult| (target, tavily_hit(x))).drop_last()
                    =~= items.take(i as int).map_values(|x: TavilyResult| (target, tavily_hit(x))));
                assert(items.subrange(i + 1, items.len() as int) =~= results@);
            }
            result.push(target, raw.into_hit());
            i += 1;
        }
        assert(items.take(n as int) =~= items);
        result
    }
}

/// Section the results of a topic are filed under.
pub open spec fn target_source(t: TavilyTopic) -> SearchSource {
    match t {
        TavilyTopic::News => SearchSource::News,
        _ => SearchSource::Web,
    }
}

/// News topics file results under news; general and finance topics file
/// them under web.
pub proof fn lemma_target_sources(t: TavilyTopic)
    ensures
        (target_source(t) is News) == (t is News),
        (target_source(t) is Web) == !(t is News),
{
}

/// Assembling a reply files every result, in the reply's order, as its hit
/// under the target source; the other sources stay empty.
pub proof fn lemma_assembled_sections(results: Seq<TavilyResult>, target: SearchSource, other: SearchSource)
    ensures
        ({
            let t = push_all(
                (Seq::<SearchHit>::empty(), Seq::<SearchHit>::empty(), Seq::<SearchHit>::empty()),
                results.map_values(|x: TavilyResult| (target, tavily_hit(x))),
            );
            &&& section_of(t, target) == results.map_values(|x: TavilyResult| tavily_hit(x))
            &&& other != target ==> section_of(t, other).len() == 0
        }),
{
    let e = (Seq::<SearchHit>::empty(), Seq::<SearchHit>::empty(), Seq::<SearchHit>::empty());
    let items = results.map_values(|x: TavilyResult| (target, tavily_hit(x)));
    assert forall|i: int| 0 <= i < items.len() implies (#[trigger] items[i]).0 == target by {
    }
    lemma_source_hits_uniform(items, target, other);
    lemma_push_all_sections(e, items, target);
    lemma_push_all_sections(e, items, other);
    assert(section_of(e, target) =~= Seq::<SearchHit>::empty());
    assert(section_of(e, other) =~= Seq::<SearchHit>::empty());
    let h = crate::response::source_hits(items, target);
    assert(Seq::<SearchHit>::empty() + h =~= h);
    assert forall|i: int| 0 <= i < results.len() implies h[i] == tavily_hit(#[trigger] results[i]) by {
        assert(items[i] == (target, tavily_hit(results[i])));
    }
    assert(h =~= results.map_values(|x: TavilyResult| tavily_hit(x)));
}

/// A decoded Tavily reply.
#[derive(Debug, Clone)]
pub struct TavilyBody {
    /// The results, in rank order.
    pub results: Vec<TavilyResult>,
    /// The LLM-generated answer, when requested and supplied.
    pub answer: Option<String>,
}

/// One Tavily result.
#[derive(Debug, Clone)]
pub struct TavilyResult {
    /// Result title.
    pub title: String,
    /// Result URL.
    pub url: String,
    /// Snippet.
    pub content: Option<String>,
    /// Publication date.
    pub published_date: Option<String>,
    /// Relevance score, as the bit pattern of the `f64` Tavily sent.
    pub score: Option<u64>,
}

/// The hit a Tavily result becomes (an empty snippet is dropped, the score
/// is carried over).
pub open spec fn tavily_hit(r: TavilyResult) -> SearchHit {
    SearchHit {
        title: r.title,
        url: r.url,
        description: non_empty(r.content),
        published_at: r.published_date,
        engine: None,
        score: r.score,
    }
}

/// A Tavily result becomes a hit with the result's title, URL, publication
/// date and score and no engine; its snippet is the hit's description
/// exactly when the snippet is present and not empty.
pub proof fn lemma_tavily_hit_fields(r: TavilyResult)
    ensures
        tavily_hit(r).title == r.title,
        tavily_hit(r).url == r.url,
        tavily_hit(r).published_at == r.published_date,
        tavily_hit(r).score == r.score,
        tavily_hit(r).engine is None,
        r.content matches Some(c) ==> (c@.len() > 0 ==> tavily_hit(r).description == Some(c)),
        tavily_hit(r).description matches Some(d) ==> r.content == Some(d) && d@.len() > 0,
{
}

impl TavilyResult {
    /// Converts the result into a hit.
    pub fn into_hit(self) -> (h: SearchHit)
        ensures
            h == tavily_hit(self),
    {
        SearchHit {
            title: self.title,
            url: self.url,
            description: keep_non_empty(self.content),
            published_at: self.published_date,
            engine: None,
            score: self.score,
        }
    }
}

impl TavilyBuilder {
    /// The key given.
    pub closed spec fn spec_api_key(&self) -> Seq<char> {
        self.api_key@
    }

    /// The base URL given.
    pub closed spec fn spec_base_url(&self) -> Seq<char> {
        self.base_url@
    }

    /// The HTTP settings given, if any.
    pub closed spec fn spec_http(&self) -> Option<HttpConfig> {
        self.http
    }

    /// The retry policy given, if any.
    pub closed spec fn spec_retry(&self) -> Option<RetryPolicy> {
        self.retry
    }

    /// The pinned topic, if any.
    pub closed spec fn spec_topic(&self) -> Option<TavilyTopic> {
        self.topic
    }

    /// Whether the answer is requested.
    pub closed spec fn spec_include_answer(&self) -> bool {
        self.include_answer
    }

    /// Overrides the API base URL (defaults to [`DEFAULT_BASE_URL`]).
    pub fn base_url(self, url: &str) -> (b: Self)
        ensures
            b.spec_base_url() == url@,
            b.spec_api_key() == self.spec_api_key(),
            b.spec_http() == self.spec_http(),
            b.spec_retry() == self.spec_retry(),
            b.spec_topic() == self.spec_topic(),
            b.spec_include_answer() == self.spec_include_answer(),
    {
        TavilyBuilder { base_url: url.to_owned(), ..self }
    }

    /// Supplies a shared [`HttpConfig`].
    pub fn http(self, http: HttpConfig) -> (b: Self)
        ensures
            b.spec_http() == Some(http),
            b.spec_base_url() == self.spec_base_url(),
            b.spec_api_key() == self.spec_api_key(),
            b.spec_retry() == self.spec_retry(),
            b.spec_topic() == self.spec_topic(),
            b.spec_include_answer() == self.spec_include_answer(),
    {
        TavilyBuilder { http: Some(http), ..self }
    }

    /// Overrides the retry policy.
    pub fn retry(self, policy: RetryPolicy) -> (b: Self)
        ensures
            b.spec_retry() == Some(policy),
            b.spec_base_url() == self.spec_base_url(),
            b.spec_api_key() == self.spec_api_key(),
            b.spec_http() == self.spec_http(),
            b.spec_topic() == self.spec_topic(),
            b.spec_include_answer() == self.spec_include_answer(),
    {
        TavilyBuilder { retry: Some(policy), ..self }
    }

    /// Pins the topic explicitly; otherwise it is inferred from the
    /// query's source set.
    pub fn topic(self, topic: TavilyTopic) -> (b: Self)
        ensures
            b.spec_topic() == Some(topic),
            b.spec_base_url() == self.spec_base_url(),
            b.spec_api_key() == self.spec_api_key(),
            b.spec_http() == self.spec_http(),
            b.spec_retry() == self.spec_retry(),
            b.spec_include_answer() == self.spec_include_answer(),
    {
        TavilyBuilder { topic: Some(topic), ..self }
    }

    /// Enables Tavily's LLM-generated `answer` in the response (off by
    /// default because it consumes additional Tavily credits).
    pub fn include_answer(self, enabled: bool) -> (b: Self)
        ensures
            b.spec_include_answer() == enabled,
            b.spec_base_url() == self.spec_base_url(),
            b.spec_api_key() == self.spec_api_key(),
            b.spec_http() == self.spec_http(),
            b.spec_retry() == self.spec_retry(),
            b.spec_topic() == self.spec_topic(),
    {
        TavilyBuilder { include_answer: enabled, ..self }
    }

    /// Builds the provider.
    ///
    /// # Errors
    ///
    /// Returns [`SearchError::Config`] if the base URL is invalid or the
    /// default HTTP client cannot be constructed.
    pub fn build(self) -> (r: Result<Tavily, SearchError>)
        ensures
            r matches Ok(p) ==> (self.spec_http() matches Some(h) ==> p.spec_http() == h),
            parsed_url(self.spec_base_url()) matches Err(m) ==> (r matches Err(
                SearchError::Config { message },
            ) && message@ == "invalid Tavily base URL: "@ + m),
            parsed_url(self.spec_base_url()) matches Ok(u) ==> match r {
                Ok(p) => p.spec_base_url() == u && p.spec_api_key() == self.spec_api_key()
                    && p.spec_topic() == self.spec_topic() && p.spec_include_answer()
                    == self.spec_include_answer() && retry_applied(self.spec_retry(), p.spec_retry_policy()),
                Err(e) => self.spec_http() is None && client_build_error(e),
            },
    {
        let base_url = match parse_base_url(self.base_url.as_str(), "invalid Tavily base URL: ") {
            Ok(u) => u,
            Err(e) => return Err(e),
        };
        let http = match resolve_http(self.http) {
            Ok(h) => h,
            Err(e) => return Err(e),
        };
        Ok(Tavily {
            http,
            base_url,
            api_key: self.api_key,
            retry_policy: resolve_retry(self.retry),
            topic_override: self.topic,
            include_answer: self.include_answer,
        })
    }
}

} // verus!
