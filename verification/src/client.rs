//! High-level [`SearchClient`] dispatching to configured providers.
//!
//! The client is an `enum` over the providers, avoiding dynamic dispatch
//! while still letting users pick a backend at runtime. Configuration that
//! comes from the process environment is handed in as a [`ProviderEnv`]
//! snapshot; explicit builder settings take precedence over it.

use vstd::prelude::*;

use crate::error::SearchError;
use crate::http::{client_build_error, HttpConfig};
use crate::providers::brave::Brave;
use crate::providers::duckduckgo::{DuckDuckGo, DEFAULT_HTML_ENDPOINT, DEFAULT_LITE_ENDPOINT};
use crate::providers::searxng::SearXNG;
use crate::providers::tavily::Tavily;
use crate::providers::wikipedia::Wikipedia;
use crate::retry::{retry_applied, RetryPolicy};
use crate::secret::SecretString;
use crate::text::{
    ascii_lower_spec, ascii_lowercase, is_blank, str_eq, trim, trim_end_spec, trim_spec,
    trim_start_spec,
};
use crate::urls::parsed_url;

verus! {

/// Environment variable selecting the default provider (`duckduckgo`, `brave`, …).
pub const ENV_PROVIDER: &'static str = "H2M_SEARCH_PROVIDER";

/// Environment variable pointing at a `SearXNG` instance base URL.
pub const ENV_SEARXNG_URL: &'static str = "H2M_SEARXNG_URL";

/// Environment variable carrying a Brave Search API token.
pub const ENV_BRAVE_API_KEY: &'static str = "BRAVE_API_KEY";

/// Environment variable carrying a Tavily API token.
pub const ENV_TAVILY_API_KEY: &'static str = "TAVILY_API_KEY";

/// Stable identifier for a search provider.
///
/// [`ProviderId::parse`] accepts aliases such as `"ddg"` for
/// [`ProviderId::DuckDuckGo`]; [`ProviderId::as_str`] yields the canonical
/// lowercase form (`"duckduckgo"`, `"wikipedia"`, …).
#[derive(Debug, Clone, Copy, PartialEq, Eq, Structural, Hash)]
pub enum ProviderId {
    /// `DuckDuckGo` zero-config HTML provider.
    DuckDuckGo,
    /// Wikipedia `MediaWiki` Search API.
    Wikipedia,
    /// `SearXNG` self-hosted meta-search.
    SearXNG,
    /// Brave Search API.
    Brave,
    /// Tavily AI Search API.
    Tavily,
}

/// Canonical lowercase identifier of a provider.
pub open spec fn provider_name(id: ProviderId) -> Seq<char> {
    match id {
        ProviderId::DuckDuckGo => "duckduckgo"@,
        ProviderId::Wikipedia => "wikipedia"@,
        ProviderId::SearXNG => "searxng"@,
        ProviderId::Brave => "brave"@,
        ProviderId::Tavily => "tavily"@,
    }
}

/// A provider name as it is matched: trimmed, ASCII-lowercased.
pub open spec fn normalized_name(s: Seq<char>) -> Seq<char> {
    ascii_lower_spec(trim_spec(s))
}

/// The provider a normalised name denotes, aliases included.
pub open spec fn provider_named(n: Seq<char>) -> Option<ProviderId> {
    if n == "duckduckgo"@ || n == "ddg"@ {
        Some(ProviderId::DuckDuckGo)
    } else if n == "wikipedia"@ || n == "wiki"@ {
        Some(ProviderId::Wikipedia)
    } else if n == "searxng"@ {
        Some(ProviderId::SearXNG)
    } else if n == "brave"@ {
        Some(ProviderId::Brave)
    } else if n == "tavily"@ {
        Some(ProviderId::Tavily)
    } else {
        None
    }
}

/// What parsing a provider name yields.
pub open spec fn parsed_provider(r: Result<ProviderId, SearchError>, s: Seq<char>) -> bool {
    match provider_named(normalized_name(s)) {
        Some(id) => r == Ok::<ProviderId, SearchError>(id),
        None => r matches Err(SearchError::ProviderUnavailable { name }) && name@
            == normalized_name(s),
    }
}

impl ProviderId {
    /// Returns the canonical lowercase identifier.
    pub fn as_str(self) -> (s: &'static str)
        ensures
            s@ == provider_name(self),
    {
        match self {
            ProviderId::DuckDuckGo => "duckduckgo",
            ProviderId::Wikipedia => "wikipedia",
            ProviderId::SearXNG => "searxng",
            ProviderId::Brave => "brave",
            ProviderId::Tavily => "tavily",
        }
    }

    /// Parses a provider name, ignoring surrounding whitespace and ASCII
    /// case, and accepting the aliases `ddg` and `wiki`.
    ///
    /// # Errors
    ///
    /// [`SearchError::ProviderUnavailable`] carrying the normalised name
    /// when it denotes no provider.
    pub fn parse(s: &str) -> (r: Result<ProviderId, SearchError>)
        ensures
            parsed_provider(r, s@),
    {
        let t = trim(s);
        let n = ascii_lowercase(t.as_str());
        proof {
            reveal_strlit("duckduckgo");
            reveal_strlit("ddg");
            reveal_strlit("wikipedia");
            reveal_strlit("wiki");
            reveal_strlit("searxng");
            reveal_strlit("brave");
            reveal_strlit("tavily");
        }
        let name = n.as_str();
        if str_eq(name, "duckduckgo") || str_eq(name, "ddg") {
            Ok(ProviderId::DuckDuckGo)
        } else if str_eq(name, "wikipedia") || str_eq(name, "wiki") {
            Ok(ProviderId::Wikipedia)
        } else if str_eq(name, "searxng") {
            Ok(ProviderId::SearXNG)
        } else if str_eq(name, "brave") {
            Ok(ProviderId::Brave)
        } else if str_eq(name, "tavily") {
            Ok(ProviderId::Tavily)
        } else {
            Err(SearchError::ProviderUnavailable { name: n })
        }
    }
}

impl std::str::FromStr for ProviderId {
    type Err = SearchError;

    /// [`ProviderId::parse`].
    fn from_str(s: &str) -> (r: Result<ProviderId, SearchError>)
        ensures
            parsed_provider(r, s@),
    {
        ProviderId::parse(s)
    }
}

/// Every provider's canonical name parses back to that provider.
pub proof fn lemma_parse_canonical_name(id: ProviderId)
    ensures
        provider_named(normalized_name(provider_name(id))) == Some(id),
{
    reveal_strlit("duckduckgo");
    reveal_strlit("ddg");
    reveal_strlit("wikipedia");
    reveal_strlit("wiki");
    reveal_strlit("searxng");
    reveal_strlit("brave");
    reveal_strlit("tavily");
    let n = provider_name(id);
    assert(trim_start_spec(n) == n);
    assert(trim_end_spec(n) == n);
    assert(ascii_lower_spec(n) =~= n);
    assert(normalized_name(n) == n);
    match id {
        ProviderId::DuckDuckGo => {},
        ProviderId::Wikipedia => {
            assert(n != "duckduckgo"@ && n != "ddg"@);
        },
        ProviderId::SearXNG => {
            assert(n != "duckduckgo"@ && n != "ddg"@ && n != "wikipedia"@ && n != "wiki"@);
        },
        ProviderId::Brave => {
            assert(n != "duckduckgo"@ && n != "ddg"@ && n != "wikipedia"@ && n != "wiki"@ && n
                != "searxng"@);
        },
        ProviderId::Tavily => {
            assert(n != "duckduckgo"@ && n != "ddg"@ && n != "wikipedia"@ && n != "wiki"@ && n
                != "searxng"@ && n != "brave"@);
        },
    }
}

/// The provider used when none is named.
pub fn default_provider() -> (s: &'static str)
    ensures
        s@ == "duckduckgo"@,
{
    "duckduckgo"
}

/// The configuration a process environment supplies: the values of
/// [`ENV_PROVIDER`], [`ENV_SEARXNG_URL`], [`ENV_BRAVE_API_KEY`] and
/// [`ENV_TAVILY_API_KEY`], each `None` when unset.
#[derive(Debug, Clone)]
pub struct ProviderEnv {
    /// [`ENV_PROVIDER`].
    pub provider: Option<String>,
    /// [`ENV_SEARXNG_URL`].
    pub searxng_url: Option<String>,
    /// [`ENV_BRAVE_API_KEY`].
    pub brave_api_key: Option<String>,
    /// [`ENV_TAVILY_API_KEY`].
    pub tavily_api_key: Option<String>,
}

impl ProviderEnv {
    /// An environment that sets none of the variables.
    pub fn empty() -> (e: Self)
        ensures
            e.provider is None,
            e.searxng_url is None,
            e.brave_api_key is None,
            e.tavily_api_key is None,
    {
        ProviderEnv { provider: None, searxng_url: None, brave_api_key: None, tavily_api_key: None }
    }
}

/// Unified, statically dispatched search client.
#[derive(Clone)]
pub enum SearchClient {
    /// `DuckDuckGo` zero-config HTML-scraping provider (default).
    DuckDuckGo(DuckDuckGo),
    /// Wikipedia `MediaWiki` Search API provider.
    Wikipedia(Wikipedia),
    /// `SearXNG` metasearch provider.
    SearXNG(SearXNG),
    /// Brave Search API provider.
    Brave(Brave),
    /// Tavily Search API provider.
    Tavily(Tavily),
}

/// The provider a client dispatches to.
pub open spec fn client_provider(c: SearchClient) -> ProviderId {
    match c {
        SearchClient::DuckDuckGo(_) => ProviderId::DuckDuckGo,
        SearchClient::Wikipedia(_) => ProviderId::Wikipedia,
        SearchClient::SearXNG(_) => ProviderId::SearXNG,
        SearchClient::Brave(_) => ProviderId::Brave,
        SearchClient::Tavily(_) => ProviderId::Tavily,
    }
}

/// The retry policy of a client's provider.
pub open spec fn client_retry(c: SearchClient) -> RetryPolicy {
    match c {
        SearchClient::DuckDuckGo(p) => p.spec_retry_policy(),
        SearchClient::Wikipedia(p) => p.spec_retry_policy(),
        SearchClient::SearXNG(p) => p.spec_retry_policy(),
        SearchClient::Brave(p) => p.spec_retry_policy(),
        SearchClient::Tavily(p) => p.spec_retry_policy(),
    }
}

impl SearchClient {
    /// Returns a new [`SearchClientBuilder`].
    pub fn builder() -> (b: SearchClientBuilder)
        ensures
            b.spec_provider() is None,
            b.spec_searxng_url() is None,
            b.spec_brave_api_key() is None,
            b.spec_tavily_api_key() is None,
            !b.spec_tavily_include_answer(),
            b.spec_wikipedia_language() is None,
            b.spec_http() is None,
            b.spec_retry() is None,
    {
        SearchClientBuilder {
            provider: None,
            searxng_url: None,
            brave_api_key: None,
            tavily_api_key: None,
            tavily_include_answer: false,
            wikipedia_language: None,
            http: None,
            retry: None,
        }
    }

    /// Builds a client from the environment: [`ENV_PROVIDER`] selects the
    /// provider (`duckduckgo` when unset) and the provider-specific
    /// variables supply credentials and endpoints.
    ///
    /// # Errors
    ///
    /// As [`SearchClientBuilder::build`].
    pub fn from_env(env: &ProviderEnv) -> (r: Result<Self, SearchError>)
        ensures
            built(r, SearchClient::builder_spec(), *env),
    {
        SearchClient::builder().build(env)
    }

    /// Builds a client for the named provider, reading credentials from the
    /// environment.
    ///
    /// # Errors
    ///
    /// As [`SearchClientBuilder::build`].
    pub fn from_provider_name(name: &str, env: &ProviderEnv) -> (r: Result<Self, SearchError>)
        ensures
            built(r, SearchClient::named_spec(name@), *env),
    {
        SearchClient::builder().provider(name).build(env)
    }

    /// The settings of a fresh builder.
    pub open spec fn builder_spec() -> BuilderSettings {
        BuilderSettings {
            provider: None,
            searxng_url: None,
            brave_api_key: None,
            tavily_api_key: None,
            tavily_include_answer: false,
            wikipedia_language: None,
            http: None,
            retry: None,
        }
    }

    /// The settings of a fresh builder that names a provider.
    pub open spec fn named_spec(name: Seq<char>) -> BuilderSettings {
        BuilderSettings { provider: Some(name), ..SearchClient::builder_spec() }
    }

    /// Returns the [`ProviderId`] of the configured backend.
    pub fn provider(&self) -> (id: ProviderId)
        ensures
            id == client_provider(*self),
    {
        match self {
            SearchClient::DuckDuckGo(_) => ProviderId::DuckDuckGo,
            SearchClient::Wikipedia(_) => ProviderId::Wikipedia,
            SearchClient::SearXNG(_) => ProviderId::SearXNG,
            SearchClient::Brave(_) => ProviderId::Brave,
            SearchClient::Tavily(_) => ProviderId::Tavily,
        }
    }

    /// Returns the canonical lowercase provider identifier
    /// (`self.provider().as_str()`).
    pub fn id(&self) -> (s: &'static str)
        ensures
            s@ == provider_name(client_provider(*self)),
    {
        self.provider().as_str()
    }

    /// The retry policy the provider applies to every request.
    pub fn retry_policy(&self) -> (p: RetryPolicy)
        ensures
            p == client_retry(*self),
    {
        match self {
            SearchClient::DuckDuckGo(p) => p.retry_policy(),
            SearchClient::Wikipedia(p) => p.retry_policy(),
            SearchClient::SearXNG(p) => p.retry_policy(),
            SearchClient::Brave(p) => p.retry_policy(),
            SearchClient::Tavily(p) => p.retry_policy(),
        }
    }
}

/// Builder for [`SearchClient`]: explicit, per-provider configuration that
/// takes precedence over the environment.
pub struct SearchClientBuilder {
    provider: Option<String>,
    searxng_url: Option<String>,
    brave_api_key: Option<SecretString>,
    tavily_api_key: Option<SecretString>,
    tavily_include_answer: bool,
    wikipedia_language: Option<String>,
    http: Option<HttpConfig>,
    retry: Option<RetryPolicy>,
}

/// The settings of a [`SearchClientBuilder`], as text.
pub struct BuilderSettings {
    /// Provider name.
    pub provider: Option<Seq<char>>,
    /// `SearXNG` instance URL.
    pub searxng_url: Option<Seq<char>>,
    /// Brave API key.
    pub brave_api_key: Option<Seq<char>>,
    /// Tavily API key.
    pub tavily_api_key: Option<Seq<char>>,
    /// Whether Tavily's answer is requested.
    pub tavily_include_answer: bool,
    /// Wikipedia language edition.
    pub wikipedia_language: Option<Seq<char>>,
    /// Shared HTTP settings.
    pub http: Option<HttpConfig>,
    /// Retry policy.
    pub retry: Option<RetryPolicy>,
}

/// The text of an optional string.
pub open spec fn text_of(s: Option<String>) -> Option<Seq<char>> {
    match s {
        Some(t) => Some(t@),
        None => None,
    }
}

/// The first value that is set.
pub open spec fn first_set(a: Option<Seq<char>>, b: Option<Seq<char>>) -> Option<Seq<char>> {
    match a {
        Some(x) => Some(x),
        None => b,
    }
}

/// The provider name a build uses: the builder's, else the environment's,
/// else `duckduckgo`.
pub open spec fn chosen_name(s: BuilderSettings, env: ProviderEnv) -> Seq<char> {
    match first_set(s.provider, text_of(env.provider)) {
        Some(n) => n,
        None => "duckduckgo"@,
    }
}

/// The client applies the retry policy given, or the production default.
pub open spec fn retry_kept(c: SearchClient, retry: Option<RetryPolicy>) -> bool {
    retry_applied(retry, client_retry(c))
}

/// What building the `DuckDuckGo` provider yields: the provider with its
/// default endpoints and the fallback on, or the client-build error when
/// no HTTP settings were given.
pub open spec fn duckduckgo_built(r: Result<SearchClient, SearchError>, http_given: bool) -> bool {
    match r {
        Ok(SearchClient::DuckDuckGo(p)) => p.spec_fallback() && p.spec_html_endpoint()
            == DEFAULT_HTML_ENDPOINT@ && p.spec_lite_endpoint() == DEFAULT_LITE_ENDPOINT@,
        Ok(_) => false,
        Err(e) => !http_given && client_build_error(e),
    }
}

/// The language edition a Wikipedia build uses: the one given unless it
/// is blank, `en` otherwise.
pub open spec fn wikipedia_language_of(lang: Option<Seq<char>>) -> Seq<char> {
    match lang {
        Some(l) => if is_blank(l) {
            "en"@
        } else {
            l
        },
        None => "en"@,
    }
}

/// What building the Wikipedia provider yields.
pub open spec fn wikipedia_built(
    r: Result<SearchClient, SearchError>,
    lang: Option<Seq<char>>,
    http_given: bool,
) -> bool {
    match r {
        Ok(SearchClient::Wikipedia(p)) => p.spec_language() == wikipedia_language_of(lang),
        Ok(_) => false,
        Err(e) => !http_given && client_build_error(e),
    }
}

/// What building the `SearXNG` provider yields: without a URL,
/// [`SearchError::MissingSearxngUrl`]; with a URL that does not parse, the
/// configuration error naming the parser's message; otherwise the provider
/// at the parsed URL, or the client-build error when no HTTP settings were
/// given.
pub open spec fn searxng_built(
    r: Result<SearchClient, SearchError>,
    url: Option<Seq<char>>,
    http_given: bool,
) -> bool {
    match url {
        None => r == Err::<SearchClient, SearchError>(SearchError::MissingSearxngUrl),
        Some(u) => match parsed_url(u) {
            Err(m) => r matches Err(SearchError::Config { message }) && message@
                == "invalid SearXNG base URL: "@ + m,
            Ok(b) => match r {
                Ok(SearchClient::SearXNG(p)) => p.spec_base_url() == b,
                Ok(_) => false,
                Err(e) => !http_given && client_build_error(e),
            },
        },
    }
}

/// What building the Brave provider yields: without a key,
/// [`SearchError::MissingApiKey`]; with one, the provider at the parsed
/// default base URL holding that key, the configuration error when that URL
/// does not parse, or the client-build error when no HTTP settings were
/// given.
pub open spec fn brave_built(
    r: Result<SearchClient, SearchError>,
    key: Option<Seq<char>>,
    http_given: bool,
) -> bool {
    match key {
        None => r == Err::<SearchClient, SearchError>(
            SearchError::MissingApiKey { provider: "brave", env_var: ENV_BRAVE_API_KEY },
        ),
        Some(k) => match parsed_url(crate::providers::brave::DEFAULT_BASE_URL@) {
            Err(m) => r matches Err(SearchError::Config { message }) && message@
                == "invalid Brave base URL: "@ + m,
            Ok(b) => match r {
                Ok(SearchClient::Brave(p)) => p.spec_api_key() == k && p.spec_base_url() == b,
                Ok(_) => false,
                Err(e) => !http_given && client_build_error(e),
            },
        },
    }
}

/// What building the Tavily provider yields, as for Brave, the answer
/// switched on as asked.
pub open spec fn tavily_built(
    r: Result<SearchClient, SearchError>,
    key: Option<Seq<char>>,
    include_answer: bool,
    http_given: bool,
) -> bool {
    match key {
        None => r == Err::<SearchClient, SearchError>(
            SearchError::MissingApiKey { provider: "tavily", env_var: ENV_TAVILY_API_KEY },
        ),
        Some(k) => match parsed_url(crate::providers::tavily::DEFAULT_BASE_URL@) {
            Err(m) => r matches Err(SearchError::Config { message }) && message@
                == "invalid Tavily base URL: "@ + m,
            Ok(b) => match r {
                Ok(SearchClient::Tavily(p)) => p.spec_api_key() == k && p.spec_base_url() == b
                    && p.spec_include_answer() == include_answer,
                Ok(_) => false,
                Err(e) => !http_given && client_build_error(e),
            },
        },
    }
}

/// What building a client yields, provider by provider: the provider the
/// name denotes, configured from the builder first and the environment
/// second; the errors of an unknown name, of missing credentials or
/// endpoints, and of the provider's own builder.
pub open spec fn built(r: Result<SearchClient, SearchError>, s: BuilderSettings, env: ProviderEnv) -> bool {
    let name = chosen_name(s, env);
    let http_given = s.http is Some;
    match provider_named(normalized_name(name)) {
        None => r matches Err(SearchError::ProviderUnavailable { name: n }) && n@ == normalized_name(
            name,
        ),
        Some(id) => {
            &&& r matches Ok(c) ==> client_provider(c) == id && retry_kept(c, s.retry)
            &&& match id {
                ProviderId::DuckDuckGo => duckduckgo_built(r, http_given),
                ProviderId::Wikipedia => wikipedia_built(r, s.wikipedia_language, http_given),
                ProviderId::SearXNG => searxng_built(
                    r,
                    first_set(s.searxng_url, text_of(env.searxng_url)),
                    http_given,
                ),
                ProviderId::Brave => brave_built(
                    r,
                    first_set(s.brave_api_key, text_of(env.brave_api_key)),
                    http_given,
                ),
                ProviderId::Tavily => tavily_built(
                    r,
                    first_set(s.tavily_api_key, text_of(env.tavily_api_key)),
                    s.tavily_include_answer,
                    http_given,
                ),
            }
        },
    }
}

impl SearchClientBuilder {
    /// The settings given so far.
    pub closed spec fn settings(&self) -> BuilderSettings {
        BuilderSettings {
            provider: text_of(self.provider),
            searxng_url: text_of(self.searxng_url),
            brave_api_key: match self.brave_api_key {
                Some(k) => Some(k@),
                None => None,
            },
            tavily_api_key: match self.tavily_api_key {
                Some(k) => Some(k@),
                None => None,
            },
            tavily_include_answer: self.tavily_include_answer,
            wikipedia_language: text_of(self.wikipedia_language),
            http: self.http,
            retry: self.retry,
        }
    }

    /// The provider name given, if any.
    pub open spec fn spec_provider(&self) -> Option<Seq<char>> {
        self.settings().provider
    }

    /// The `SearXNG` URL given, if any.
    pub open spec fn spec_searxng_url(&self) -> Option<Seq<char>> {
        self.settings().searxng_url
    }

    /// The Brave key given, if any.
    pub open spec fn spec_brave_api_key(&self) -> Option<Seq<char>> {
        self.settings().brave_api_key
    }

    /// The Tavily key given, if any.
    pub open spec fn spec_tavily_api_key(&self) -> Option<Seq<char>> {
        self.settings().tavily_api_key
    }

    /// Whether Tavily's answer is requested.
    pub open spec fn spec_tavily_include_answer(&self) -> bool {
        self.settings().tavily_include_answer
    }

    /// The Wikipedia language given, if any.
    pub open spec fn spec_wikipedia_language(&self) -> Option<Seq<char>> {
        self.settings().wikipedia_language
    }

    /// The HTTP settings given, if any.
    pub open spec fn spec_http(&self) -> Option<HttpConfig> {
        self.settings().http
    }

    /// The retry policy given, if any.
    pub open spec fn spec_retry(&self) -> Option<RetryPolicy> {
        self.settings().retry
    }

    /// Selects the provider by name.
    pub fn provider(self, name: &str) -> (b: Self)
        ensures
            b.settings() == (BuilderSettings { provider: Some(name@), ..self.settings() }),
    {
        SearchClientBuilder { provider: Some(name.to_owned()), ..self }
    }

    /// Overrides the `SearXNG` instance URL.
    pub fn searxng_url(self, url: &str) -> (b: Self)
        ensures
            b.settings() == (BuilderSettings { searxng_url: Some(url@), ..self.settings() }),
    {
        SearchClientBuilder { searxng_url: Some(url.to_owned()), ..self }
    }

    /// Overrides the Brave API key.
    pub fn brave_api_key(self, key: SecretString) -> (b: Self)
        ensures
            b.settings() == (BuilderSettings { brave_api_key: Some(key@), ..self.settings() }),
    {
        SearchClientBuilder { brave_api_key: Some(key), ..self }
    }

    /// Overrides the Tavily API key.
    pub fn tavily_api_key(self, key: SecretString) -> (b: Self)
        ensures
            b.settings() == (BuilderSettings { tavily_api_key: Some(key@), ..self.settings() }),
    {
        SearchClientBuilder { tavily_api_key: Some(key), ..self }
    }

    /// Enables Tavily's LLM-generated answer field. Ignored by other
    /// providers; off by default because the answer costs extra credits.
    pub fn tavily_include_answer(self, enabled: bool) -> (b: Self)
        ensures
            b.settings() == (BuilderSettings { tavily_include_answer: enabled, ..self.settings() }),
    {
        SearchClientBuilder { tavily_include_answer: enabled, ..self }
    }

    /// Sets the Wikipedia language edition (e.g. `"en"`, `"zh"`). A query's
    /// own language still wins when both are set.
    pub fn wikipedia_language(self, lang: &str) -> (b: Self)
        ensures
            b.settings() == (BuilderSettings { wikipedia_language: Some(lang@), ..self.settings() }),
    {
        SearchClientBuilder { wikipedia_language: Some(lang.to_owned()), ..self }
    }

    /// Supplies a shared [`HttpConfig`] used by the selected provider.
    pub fn http(self, http: HttpConfig) -> (b: Self)
        ensures
            b.settings() == (BuilderSettings { http: Some(http), ..self.settings() }),
    {
        SearchClientBuilder { http: Some(http), ..self }
    }

    /// Overrides the retry policy applied by the chosen provider.
    pub fn retry(self, policy: RetryPolicy) -> (b: Self)
        ensures
            b.settings() == (BuilderSettings { retry: Some(policy), ..self.settings() }),
    {
        SearchClientBuilder { retry: Some(policy), ..self }
    }

    /// Builds the [`SearchClient`].
    ///
    /// # Errors
    ///
    /// [`SearchError::ProviderUnavailable`] for an unknown provider name;
    /// [`SearchError::MissingSearxngUrl`] / [`SearchError::MissingApiKey`]
    /// when the chosen provider lacks its endpoint or key in both the
    /// builder and the environment; [`SearchError::Config`] from the
    /// provider's own builder.
    pub fn build(self, env: &ProviderEnv) -> (r: Result<SearchClient, SearchError>)
        ensures
            built(r, self.settings(), *env),
    {
        let ghost s = self.settings();
        let name = match &self.provider {
            Some(p) => p.clone(),
            None => match &env.provider {
                Some(p) => p.clone(),
                None => default_provider().to_owned(),
            },
        };
        assert(name@ == chosen_name(s, *env));
        let id = match ProviderId::parse(name.as_str()) {
            Ok(id) => id,
            Err(e) => return Err(e),
        };
        match id {
            ProviderId::DuckDuckGo => self.build_duckduckgo(),
            ProviderId::Wikipedia => self.build_wikipedia(),
            ProviderId::SearXNG => self.build_searxng(env),
            ProviderId::Brave => self.build_brave(env),
            ProviderId::Tavily => self.build_tavily(env),
        }
    }

    fn build_duckduckgo(self) -> (r: Result<SearchClient, SearchError>)
        ensures
            r matches Ok(c) ==> retry_kept(c, self.spec_retry()),
            duckduckgo_built(r, self.spec_http() is Some),
    {
        let mut b = DuckDuckGo::builder();
        match self.http {
            Some(h) => b = b.http(h),
            None => {},
        }
        match self.retry {
            Some(rp) => b = b.retry(rp),
            None => {},
        }
        match b.build() {
            Ok(p) => Ok(SearchClient::DuckDuckGo(p)),
            Err(e) => Err(e),
        }
    }

    fn build_wikipedia(self) -> (r: Result<SearchClient, SearchError>)
        ensures
            r matches Ok(c) ==> retry_kept(c, self.spec_retry()),
            wikipedia_built(r, self.spec_wikipedia_language(), self.spec_http() is Some),
    {
        let mut b = Wikipedia::builder();
        match &self.wikipedia_language {
            Some(l) => b = b.language(l.as_str()),
            None => {},
        }
        match self.http {
            Some(h) => b = b.http(h),
            None => {},
        }
        match self.retry {
            Some(rp) => b = b.retry(rp),
            None => {},
        }
        match b.build() {
            Ok(p) => Ok(SearchClient::Wikipedia(p)),
            Err(e) => Err(e),
        }
    }

    fn build_searxng(self, env: &ProviderEnv) -> (r: Result<SearchClient, SearchError>)
        ensures
            r matches Ok(c) ==> retry_kept(c, self.spec_retry()),
            searxng_built(
                r,
                first_set(self.spec_searxng_url(), text_of(env.searxng_url)),
                self.spec_http() is Some,
            ),
    {
        let url = match &self.searxng_url {
            Some(u) => u.clone(),
            None => match &env.searxng_url {
                Some(u) => u.clone(),
                None => return Err(SearchError::MissingSearxngUrl),
            },
        };
        let mut b = SearXNG::builder(url.as_str());
        match self.http {
            Some(h) => b = b.http(h),
            None => {},
        }
        match self.retry {
            Some(rp) => b = b.retry(rp),
            None => {},
        }
        match b.build() {
            Ok(p) => Ok(SearchClient::SearXNG(p)),
            Err(e) => Err(e),
        }
    }

    fn build_brave(self, env: &ProviderEnv) -> (r: Result<SearchClient, SearchError>)
        ensures
            r matches Ok(c) ==> retry_kept(c, self.spec_retry()),
            brave_built(
                r,
                first_set(self.spec_brave_api_key(), text_of(env.brave_api_key)),
                self.spec_http() is Some,
            ),
    {
        let key = match self.brave_api_key {
            Some(k) => k,
            None => match &env.brave_api_key {
                Some(k) => SecretString::new(k.as_str()),
                None => {
                    return Err(
                        SearchError::MissingApiKey {
                            provider: "brave",
                            env_var: ENV_BRAVE_API_KEY,
                        },
                    )
                },
            },
        };
        let mut b = Brave::builder(key);
        match self.http {
            Some(h) => b = b.http(h),
            None => {},
        }
        match self.retry {
            Some(rp) => b = b.retry(rp),
            None => {},
        }
        match b.build() {
            Ok(p) => Ok(SearchClient::Brave(p)),
            Err(e) => Err(e),
        }
    }

    fn build_tavily(self, env: &ProviderEnv) -> (r: Result<SearchClient, SearchError>)
        ensures
            r matches Ok(c) ==> retry_kept(c, self.spec_retry()),
            tavily_built(
                r,
                first_set(self.spec_tavily_api_key(), text_of(env.tavily_api_key)),
                self.spec_tavily_include_answer(),
                self.spec_http() is Some,
            ),
    {
        let key = match self.tavily_api_key {
            Some(k) => k,
            None => match &env.tavily_api_key {
                Some(k) => SecretString::new(k.as_str()),
                None => {
                    return Err(
                        SearchError::MissingApiKey {
                            provider: "tavily",
                            env_var: ENV_TAVILY_API_KEY,
                        },
                    )
                },
            },
        };
        let mut b = Tavily::builder(key).include_answer(self.tavily_include_answer);
        match self.http {
            Some(h) => b = b.http(h),
            None => {},
        }
        match self.retry {
            Some(rp) => b = b.retry(rp),
            None => {},
        }
        match b.build() {
            Ok(p) => Ok(SearchClient::Tavily(p)),
            Err(e) => Err(e),
        }
    }
}

impl Default for SearchClientBuilder {
    fn default() -> (b: Self)
        ensures
            b.settings() == SearchClient::builder_spec(),
    {
        SearchClient::builder()
    }
}

} // verus!
