//! Wikipedia provider.
//!
//! Uses the public MediaWiki Search API — free, unauthenticated and
//! officially supported. Ideal for encyclopedic queries and as a fallback
//! when general-web providers fail.
//!
//! The provider is language-aware: set [`WikipediaBuilder::language`] to any
//! language code Wikipedia supports (`en`, `zh`, `es`, `ja`, …). The default
//! is `en`; a query's own language takes precedence.

use vstd::prelude::*;

use crate::encoding::{encode_str, pairs_view, push_encoded, ByteRule};
use crate::error::SearchError;
use crate::http::{client_build_error, resolve_http, HttpConfig};
use crate::providers::brave::min_usize;
use crate::providers::common::{add_query, empty_query, empty_query_error, push_pair, resolve_retry, with_query, HttpRequest, Method};
use crate::query::{SearchQuery, SearchSource};
use crate::response::{SearchHit, SearchResponse};
use crate::retry::{is_production, retry_applied, RetryPolicy};
use crate::text::{
    chars_of, decimal, decimal_string, is_blank, push_char, push_str, replace, replace_spec,
    str_is_blank, trim, trim_spec,
};
use crate::urls::{parse_url, parsed_url};

verus! {

/// Provider identifier.
pub const PROVIDER_ID: &'static str = "wikipedia";

/// Language edition used when none is configured.
pub const DEFAULT_LANGUAGE: &'static str = "en";

/// The API caps `srlimit` at 50.
pub const MAX_SRLIMIT: usize = 50;

/// Wikipedia search provider.
#[derive(Debug, Clone)]
pub struct Wikipedia {
    http: HttpConfig,
    language: String,
    retry_policy: RetryPolicy,
}

/// Typed builder for [`Wikipedia`].
#[derive(Debug)]
pub struct WikipediaBuilder {
    language: Option<String>,
    http: Option<HttpConfig>,
    retry: Option<RetryPolicy>,
}

/// What `format!("{:?}", s)` yields for a string slice: the text in double
/// quotes, with `str`'s `Debug` escaping applied.
pub uninterp spec fn debug_quoted(s: Seq<char>) -> Seq<char>;

/// `format!("{:?}", s)` for a string slice.
#[verifier::external_body]
fn debug_str(s: &str) -> (r: String)
    ensures
        r@ == debug_quoted(s@),
{
    format!("{s:?}")
}

/// An ASCII letter or digit.
pub open spec fn is_ascii_alnum(c: char) -> bool {
    ||| ('0' <= c && c <= '9')
    ||| ('a' <= c && c <= 'z')
    ||| ('A' <= c && c <= 'Z')
}

/// A language code the endpoint accepts: non-empty, ASCII letters, digits
/// and `-` only.
pub open spec fn valid_language_code(t: Seq<char>) -> bool {
    t.len() > 0 && forall|i: int| 0 <= i < t.len() ==> #[trigger] is_ascii_alnum(t[i]) || t[i]
        == '-'
}

/// The API URL of a language edition, before parsing.
pub open spec fn api_url_text(code: Seq<char>) -> Seq<char> {
    "https://"@ + code + ".wikipedia.org/w/api.php"@
}

/// What [`build_endpoint`] yields for a language: the parsed API URL of
/// the trimmed code, or the configuration error that explains why not.
pub open spec fn endpoint_for(r: Result<String, SearchError>, language: Seq<char>) -> bool {
    let code = trim_spec(language);
    if !valid_language_code(code) {
        r matches Err(SearchError::Config { message }) && message@
            == "invalid Wikipedia language code: "@ + debug_quoted(language)
    } else {
        match parsed_url(api_url_text(code)) {
            Ok(u) => r matches Ok(s) && s@ == u,
            Err(m) => r matches Err(SearchError::Config { message }) && message@
                == "cannot build Wikipedia endpoint: "@ + m,
        }
    }
}

fn valid_code(t: &str) -> (b: bool)
    ensures
        b == valid_language_code(t@),
{
    let v = chars_of(t);
    if v.len() == 0 {
        return false;
    }
    let mut i: usize = 0;
    while i < v.len()
        invariant
            v@ == t@,
            0 <= i <= v@.len(),
            forall|j: int| 0 <= j < i ==> #[trigger] is_ascii_alnum(v@[j]) || v@[j] == '-',
        decreases v@.len() - i,
    {
        let c = v[i];
        let ok = ('0' <= c && c <= '9') || ('a' <= c && c <= 'z') || ('A' <= c && c <= 'Z') || c
            == '-';
        if !ok {
            assert(!(is_ascii_alnum(v@[i as int]) || v@[i as int] == '-'));
            return false;
        }
        i += 1;
    }
    true
}

/// The API endpoint of a language edition.
///
/// # Errors
///
/// [`SearchError::Config`] when the trimmed code is empty or holds anything
/// but ASCII letters, digits and `-`, or when the URL does not parse.
pub fn build_endpoint(language: &str) -> (r: Result<String, SearchError>)
    ensures
        endpoint_for(r, language@),
{
    let trimmed = trim(language);
    if !valid_code(trimmed.as_str()) {
        let mut message = String::new();
        push_str(&mut message, "invalid Wikipedia language code: ");
        let quoted = debug_str(language);
        push_str(&mut message, quoted.as_str());
        return Err(SearchError::Config { message });
    }
    let mut text = String::new();
    push_str(&mut text, "https://");
    push_str(&mut text, trimmed.as_str());
    push_str(&mut text, ".wikipedia.org/w/api.php");
    assert(text@ =~= api_url_text(trim_spec(language@)));
    match parse_url(text.as_str()) {
        Ok(u) => Ok(u),
        Err(m) => {
            let mut message = String::new();
            push_str(&mut message, "cannot build Wikipedia endpoint: ");
            push_str(&mut message, m.as_str());
            Err(SearchError::Config { message })
        },
    }
}

/// The article URL of a title: spaces become `_`, then the path is
/// percent-encoded under [`ByteRule::WikiPath`].
pub open spec fn article_url_spec(language: Seq<char>, title: Seq<char>) -> Seq<char> {
    "https://"@ + language + ".wikipedia.org/wiki/"@ + encode_str(
        ByteRule::WikiPath,
        replace_spec(title, " "@, "_"@),
    )
}

/// The article URL of a title in a language edition.
pub fn article_url(language: &str, title: &str) -> (s: String)
    ensures
        s@ == article_url_spec(language@, title@),
{
    proof {
        reveal_strlit(" ");
    }
    let underscored = replace(title, " ", "_");
    let mut s = String::new();
    push_str(&mut s, "https://");
    push_str(&mut s, language);
    push_str(&mut s, ".wikipedia.org/wiki/");
    push_encoded(&mut s, ByteRule::WikiPath, underscored.as_str());
    assert(s@ =~= article_url_spec(language@, title@));
    s
}

/// Whether a tag is open after reading `s`: a `<` opens one, a `>` closes
/// it.
pub open spec fn in_tag_after(s: Seq<char>) -> bool
    decreases s.len(),
{
    if s.len() == 0 {
        false
    } else if s.last() == '<' {
        true
    } else if s.last() == '>' {
        false
    } else {
        in_tag_after(s.drop_last())
    }
}

/// The text outside tags: `<`, `>` and every char between them dropped.
pub open spec fn strip_tags(s: Seq<char>) -> Seq<char>
    decreases s.len(),
{
    if s.len() == 0 {
        Seq::empty()
    } else {
        let p = s.drop_last();
        let c = s.last();
        if c == '<' || c == '>' || in_tag_after(p) {
            strip_tags(p)
        } else {
            strip_tags(p).push(c)
        }
    }
}

/// The handful of HTML entities search snippets use, decoded in order:
/// `&amp;`, `&quot;`, `&#039;`, `&#39;`, `&nbsp;`, `&lt;`, `&gt;`.
pub open spec fn decode_entities_spec(s: Seq<char>) -> Seq<char> {
    let a = replace_spec(s, "&amp;"@, "&"@);
    let b = replace_spec(a, "&quot;"@, "\""@);
    let c = replace_spec(b, "&#039;"@, "'"@);
    let d = replace_spec(c, "&#39;"@, "'"@);
    let e = replace_spec(d, "&nbsp;"@, " "@);
    let f = replace_spec(e, "&lt;"@, "<"@);
    replace_spec(f, "&gt;"@, ">"@)
}

/// A snippet without its highlight tags, trimmed, entities decoded.
pub open spec fn clean_snippet_spec(raw: Seq<char>) -> Seq<char> {
    decode_entities_spec(trim_spec(strip_tags(raw)))
}

fn strip_tags_exec(raw: &str) -> (out: String)
    ensures
        out@ == strip_tags(raw@),
{
    let v = chars_of(raw);
    let mut out = String::new();
    let mut in_tag = false;
    let mut i: usize = 0;
    while i < v.len()
        invariant
            v@ == raw@,
            0 <= i <= v@.len(),
            out@ == strip_tags(v@.take(i as int)),
            in_tag == in_tag_after(v@.take(i as int)),
        decreases v@.len() - i,
    {
        let c = v[i];
        proof {
            assert(v@.take(i + 1).drop_last() =~= v@.take(i as int));
            assert(v@.take(i + 1).last() == c);
        }
        if c == '<' {
            in_tag = true;
        } else if c == '>' {
            in_tag = false;
        } else if !in_tag {
            push_char(&mut out, c);
        }
        i += 1;
    }
    assert(v@.take(v@.len() as int) =~= v@);
    out
}

/// The entities of a snippet decoded.
pub fn decode_entities(s: &str) -> (out: String)
    ensures
        out@ == decode_entities_spec(s@),
{
    proof {
        reveal_strlit("&amp;");
        reveal_strlit("&quot;");
        reveal_strlit("&#039;");
        reveal_strlit("&#39;");
        reveal_strlit("&nbsp;");
        reveal_strlit("&lt;");
        reveal_strlit("&gt;");
    }
    let a = replace(s, "&amp;", "&");
    let b = replace(a.as_str(), "&quot;", "\"");
    let c = replace(b.as_str(), "&#039;", "'");
    let d = replace(c.as_str(), "&#39;", "'");
    let e = replace(d.as_str(), "&nbsp;", " ");
    let f = replace(e.as_str(), "&lt;", "<");
    replace(f.as_str(), "&gt;", ">")
}

/// Strips the `<span class="searchmatch">` highlight tags, trims, and
/// decodes the entities search snippets use.
pub fn clean_snippet(raw: &str) -> (out: String)
    ensures
        out@ == clean_snippet_spec(raw@),
{
    let stripped = strip_tags_exec(raw);
    let trimmed = trim(stripped.as_str());
    decode_entities(trimmed.as_str())
}

/// One search result as the API returns it.
#[derive(Debug, Clone)]
pub struct WikiResult {
    /// Article title.
    pub title: String,
    /// Highlighted snippet (empty when absent).
    pub snippet: String,
    /// Last-edit timestamp.
    pub timestamp: Option<String>,
}

/// A decoded search reply: `query.search`.
#[derive(Debug, Clone)]
pub struct WikiBody {
    /// The results, in rank order.
    pub search: Vec<WikiResult>,
}

/// The hit a result becomes in a language edition.
pub open spec fn wiki_hit(r: WikiResult, language: Seq<char>, h: SearchHit) -> bool {
    &&& h.title == r.title
    &&& h.url@ == article_url_spec(language, r.title@)
    &&& (if clean_snippet_spec(r.snippet@).len() == 0 {
        h.description is None
    } else {
        h.description matches Some(d) && d@ == clean_snippet_spec(r.snippet@)
    })
    &&& h.published_at == r.timestamp
    &&& h.engine matches Some(e) && e@ == PROVIDER_ID@
    &&& h.score is None
}

/// A Wikipedia hit carries its result's title and timestamp, names
/// Wikipedia as its engine, has no score, and has a description exactly
/// when the cleaned snippet is not empty (and then it is that snippet).
pub proof fn lemma_wiki_hit_fields(r: WikiResult, language: Seq<char>, h: SearchHit)
    requires
        wiki_hit(r, language, h),
    ensures
        h.title == r.title,
        h.published_at == r.timestamp,
        h.engine matches Some(e) && e@ == "wikipedia"@,
        h.score is None,
        h.description is Some == (clean_snippet_spec(r.snippet@).len() > 0),
        h.description matches Some(d) ==> d@ == clean_snippet_spec(r.snippet@),
{
    reveal_strlit("wikipedia");
}

impl WikiResult {
    /// Converts the result into a hit.
    pub fn into_hit(self, language: &str) -> (h: SearchHit)
        ensures
            wiki_hit(self, language@, h),
    {
        let url = article_url(language, self.title.as_str());
        let description = clean_snippet(self.snippet.as_str());
        let description = if description.as_str().is_empty() {
            None
        } else {
            Some(description)
        };
        SearchHit {
            title: self.title,
            url,
            description,
            published_at: self.timestamp,
            engine: Some(PROVIDER_ID.to_owned()),
            score: None,
        }
    }
}

/// Query parameters of a search.
pub open spec fn wiki_pairs(q: SearchQuery) -> Seq<(Seq<char>, Seq<char>)> {
    seq![
        ("action"@, "query"@),
        ("list"@, "search"@),
        ("srsearch"@, q.query@),
        ("srlimit"@, decimal(min_usize(q.limit, MAX_SRLIMIT) as nat)),
        ("srprop"@, "snippet|timestamp|wordcount"@),
        ("format"@, "json"@),
        ("formatversion"@, "2"@),
        ("utf8"@, "1"@),
        ("origin"@, "*"@),
    ]
}

fn query_pairs(q: &SearchQuery) -> (v: Vec<(String, String)>)
    ensures
        pairs_view(v@) == wiki_pairs(*q),
{
    let mut v: Vec<(String, String)> = Vec::new();
    push_pair(&mut v, "action", "query");
    push_pair(&mut v, "list", "search");
    push_pair(&mut v, "srsearch", q.query.as_str());
    let limit = if q.limit < MAX_SRLIMIT {
        q.limit
    } else {
        MAX_SRLIMIT
    };
    let limit_text = decimal_string(limit as u64);
    push_pair(&mut v, "srlimit", limit_text.as_str());
    push_pair(&mut v, "srprop", "snippet|timestamp|wordcount");
    push_pair(&mut v, "format", "json");
    push_pair(&mut v, "formatversion", "2");
    push_pair(&mut v, "utf8", "1");
    push_pair(&mut v, "origin", "*");
    assert(pairs_view(v@) =~= wiki_pairs(*q));
    v
}

/// The language a search runs in: the query's, else the provider's.
pub open spec fn effective_language(q: SearchQuery, default: Seq<char>) -> Seq<char> {
    match q.language {
        Some(l) => l@,
        None => default,
    }
}

/// How a search ends before any request: a blank query or a bad language
/// code; otherwise a plain `GET` of the endpoint with the query pairs.
pub open spec fn wiki_prepared(r: Result<HttpRequest, SearchError>, q: SearchQuery, language: Seq<char>) -> bool {
    if !q.valid() {
        r matches Err(e) && empty_query_error(e)
    } else {
        let lang = effective_language(q, language);
        let code = trim_spec(lang);
        if !valid_language_code(code) {
            r matches Err(SearchError::Config { message }) && message@
                == "invalid Wikipedia language code: "@ + debug_quoted(lang)
        } else {
            match parsed_url(api_url_text(code)) {
                Ok(u) => r matches Ok(req) && req.method == Method::Get && req.url@ == with_query(
                    u,
                    wiki_pairs(q),
                ) && req.headers@.len() == 0 && req.body is None,
                Err(m) => r matches Err(SearchError::Config { message }) && message@
                    == "cannot build Wikipedia endpoint: "@ + m,
            }
        }
    }
}

/// The hits a reply becomes: the first `limit` results, in order.
pub open spec fn wiki_hits(hits: Seq<SearchHit>, body: WikiBody, q: SearchQuery, language: Seq<char>) -> bool {
    let n = min_usize(body.search@.len() as usize, q.limit);
    &&& hits.len() == n
    &&& forall|i: int| 0 <= i < n ==> wiki_hit(body.search@[i], language, #[trigger] hits[i])
}

impl Wikipedia {
    /// The configured language edition.
    pub closed spec fn spec_language(&self) -> Seq<char> {
        self.language@
    }

    /// The retry policy.
    pub closed spec fn spec_retry_policy(&self) -> RetryPolicy {
        self.retry_policy
    }

    /// Creates a provider with default settings (English Wikipedia,
    /// production retry policy, shared HTTP client).
    ///
    /// # Errors
    ///
    /// Returns [`SearchError::Config`] if the default HTTP client cannot be
    /// constructed.
    pub fn new() -> (r: Result<Self, SearchError>)
        ensures
            r matches Ok(p) ==> p.spec_language() == DEFAULT_LANGUAGE@
                && is_production(p.spec_retry_policy()),
            r matches Err(e) ==> e is Config,
    {
        Wikipedia::builder().build()
    }

    /// Starts a typed builder for fine-grained configuration.
    pub fn builder() -> (b: WikipediaBuilder)
        ensures
            b.spec_language() is None,
            b.spec_http() is None,
            b.spec_retry() is None,
    {
        WikipediaBuilder { language: None, http: None, retry: None }
    }

    /// The shared HTTP settings held.
    pub closed spec fn spec_http(&self) -> HttpConfig {
        self.http
    }

    /// Shared HTTP settings.
    pub fn http(&self) -> (h: &HttpConfig)
        ensures
            *h == self.spec_http(),
    {
        &self.http
    }

    /// The configured language edition.
    pub fn language(&self) -> (s: &str)
        ensures
            s@ == self.spec_language(),
    {
        self.language.as_str()
    }

    /// The retry policy applied to the request.
    pub fn retry_policy(&self) -> (p: RetryPolicy)
        ensures
            p == self.spec_retry_policy(),
    {
        self.retry_policy
    }

    /// The language a query runs in: its own, else the provider's.
    pub fn effective_language<'a>(&'a self, query: &'a SearchQuery) -> (s: &'a str)
        ensures
            s@ == effective_language(*query, self.spec_language()),
    {
        match &query.language {
            Some(l) => l.as_str(),
            None => self.language.as_str(),
        }
    }

    /// The request a search sends.
    ///
    /// # Errors
    ///
    /// [`SearchError::Config`] for a blank query, an invalid language code
    /// or an endpoint that does not parse.
    pub fn prepare(&self, query: &SearchQuery) -> (r: Result<HttpRequest, SearchError>)
        ensures
            wiki_prepared(r, *query, self.spec_language()),
    {
        if !query.is_valid() {
            return Err(empty_query());
        }
        let lang = self.effective_language(query);
        let endpoint = match build_endpoint(lang) {
            Ok(u) => u,
            Err(e) => return Err(e),
        };
        let pairs = query_pairs(query);
        let url = add_query(endpoint, &pairs);
        let headers: Vec<(String, String)> = Vec::new();
        Ok(HttpRequest { method: Method::Get, url, headers, body: None })
    }

    /// Builds the response from the decoded reply: the first `limit`
    /// results, all filed as web results, their URLs built in the query's
    /// language edition.
    pub fn assemble(&self, query: &SearchQuery, body: WikiBody) -> (r: SearchResponse)
        ensures
            r.query@ == query.query@,
            r.provider == PROVIDER_ID,
            r.answer is None,
            r.elapsed_ms == 0,
            wiki_hits(r.web@, body, *query, effective_language(*query, self.spec_language())),
            r.news@.len() == 0,
            r.images@.len() == 0,
    {
        let lang = self.effective_language(query);
        let mut response = SearchResponse::new(query.query.as_str(), PROVIDER_ID);
        let ghost items = body.search@;
        let ghost language = lang@;
        let n = if body.search.len() < query.limit {
            body.search.len()
        } else {
            query.limit
        };
        let mut results = body.search;
        let mut i: usize = 0;
        while i < n
            invariant
                0 <= i <= n <= items.len(),
                n == min_usize(items.len() as usize, query.limit),
                results@ == items.subrange(i as int, items.len() as int),
                lang@ == language,
                response.query@ == query.query@,
                response.provider == PROVIDER_ID,
                response.answer is None,
                response.elapsed_ms == 0,
                response.web@.len() == i,
                response.news@.len() == 0,
                response.images@.len() == 0,
                forall|j: int| 0 <= j < i ==> wiki_hit(items[j], language, #[trigger] response.web@[j]),
            decreases n - i,
        {
            let raw = results.remove(0);
            assert(raw == items[i as int]);
            assert(items.subrange(i + 1, items.len() as int) =~= results@);
            let hit = raw.into_hit(lang);
            response.push(SearchSource::Web, hit);
            i += 1;
        }
        response
    }
}

impl WikipediaBuilder {
    /// The language given, if any.
    pub closed spec fn spec_language(&self) -> Option<String> {
        self.language
    }

    /// The HTTP settings given, if any.
    pub closed spec fn spec_http(&self) -> Option<HttpConfig> {
        self.http
    }

    /// The retry policy given, if any.
    pub closed spec fn spec_retry(&self) -> Option<RetryPolicy> {
        self.retry
    }

    /// Sets the Wikipedia language edition (e.g. `"en"`, `"zh"`, `"ja"`).
    /// Empty or whitespace-only strings are ignored.
    pub fn language(self, lang: &str) -> (b: Self)
        ensures
            is_blank(lang@) ==> b.spec_language() == self.spec_language(),
            !is_blank(lang@) ==> (b.spec_language() matches Some(l) && l@ == lang@),
            b.spec_http() == self.spec_http(),
            b.spec_retry() == self.spec_retry(),
    {
        if str_is_blank(lang) {
            self
        } else {
            WikipediaBuilder { language: Some(lang.to_owned()), ..self }
        }
    }

    /// Supplies a shared [`HttpConfig`].
    pub fn http(self, http: HttpConfig) -> (b: Self)
        ensures
            b.spec_http() == Some(http),
            b.spec_language() == self.spec_language(),
            b.spec_retry() == self.spec_retry(),
    {
        WikipediaBuilder { http: Some(http), ..self }
    }

    /// Overrides the retry policy.
    pub fn retry(self, policy: RetryPolicy) -> (b: Self)
        ensures
            b.spec_retry() == Some(policy),
            b.spec_language() == self.spec_language(),
            b.spec_http() == self.spec_http(),
    {
        WikipediaBuilder { retry: Some(policy), ..self }
    }

    /// Builds the provider.
    ///
    /// # Errors
    ///
    /// Returns [`SearchError::Config`] if the default HTTP client cannot be
    /// constructed.
    pub fn build(self) -> (r: Result<Wikipedia, SearchError>)
        ensures
            r matches Ok(p) ==> (self.spec_http() matches Some(h) ==> p.spec_http() == h),
            r matches Ok(p) ==> p.spec_language() == (match self.spec_language() {
                Some(l) => l@,
                None => DEFAULT_LANGUAGE@,
            }) && retry_applied(self.spec_retry(), p.spec_retry_policy()),
            r matches Err(e) ==> self.spec_http() is None && client_build_error(e),
    {
        let http = match resolve_http(self.http) {
            Ok(h) => h,
            Err(e) => return Err(e),
        };
        let language = match self.language {
            Some(l) => l,
            None => DEFAULT_LANGUAGE.to_owned(),
        };
        Ok(Wikipedia { http, language, retry_policy: resolve_retry(self.retry) })
    }
}

impl Default for WikipediaBuilder {
    fn default() -> (b: Self)
        ensures
            b.spec_language() is None,
            b.spec_http() is None,
            b.spec_retry() is None,
    {
        WikipediaBuilder { language: None, http: None, retry: None }
    }
}

} // verus!
