use h2m_search::cli::{collect_inputs, wants_json_error, SafeSearchArg, SearchOptions, SourceArg, TimeRangeArg};
use h2m_search::client::{default_provider, ProviderEnv, ProviderId, SearchClient};
use h2m_search::error::SearchError;
use h2m_search::query::{SafeSearch, SearchSource, TimeRange};
use h2m_search::retry::RetryPolicy;
use h2m_search::secret::SecretString;

#[test]
fn unknown_provider_errors() {
    let err = SearchClient::from_provider_name("yahoo", &ProviderEnv::empty()).err().unwrap();
    assert!(matches!(err, SearchError::ProviderUnavailable { .. }));
}

#[test]
fn unknown_provider_is_unavailable() {
    let err = SearchClient::builder().provider("yahoo").build(&ProviderEnv::empty()).err().unwrap();
    assert!(matches!(err, SearchError::ProviderUnavailable { .. }));
}

#[test]
fn duckduckgo_is_the_default_provider() {
    assert_eq!(default_provider(), "duckduckgo");
}

#[test]
fn builder_creates_duckduckgo_with_no_config() {
    let client = SearchClient::builder().provider("duckduckgo").build(&ProviderEnv::empty()).ok().unwrap();
    assert_eq!(client.id(), "duckduckgo");
}

#[test]
fn builder_creates_wikipedia_with_custom_language() {
    let client = SearchClient::builder()
        .provider("wikipedia")
        .wikipedia_language("zh")
        .build(&ProviderEnv::empty())
        .ok()
        .unwrap();
    assert_eq!(client.id(), "wikipedia");
    match client {
        SearchClient::Wikipedia(p) => assert_eq!(p.language(), "zh"),
        _ => panic!("expected the Wikipedia provider"),
    }
}

#[test]
fn ddg_alias_resolves_to_duckduckgo() {
    let client = SearchClient::builder().provider("ddg").build(&ProviderEnv::empty()).ok().unwrap();
    assert_eq!(client.id(), "duckduckgo");
}

#[test]
fn builder_accepts_explicit_url() {
    let client = SearchClient::builder()
        .provider("searxng")
        .searxng_url("https://searx.example.org")
        .build(&ProviderEnv::empty())
        .ok()
        .unwrap();
    assert_eq!(client.id(), "searxng");
}

#[test]
fn builder_rejects_invalid_searxng_url() {
    let err = SearchClient::builder()
        .provider("searxng")
        .searxng_url("not a url")
        .build(&ProviderEnv::empty())
        .err()
        .unwrap();
    assert!(matches!(err, SearchError::Config { .. }));
}

#[test]
fn provider_names_parse_case_and_space_insensitively() {
    assert_eq!(ProviderId::parse("  Brave ").ok(), Some(ProviderId::Brave));
    assert_eq!(ProviderId::parse("WIKI").ok(), Some(ProviderId::Wikipedia));
    assert_eq!(ProviderId::parse("SearXNG").ok(), Some(ProviderId::SearXNG));
    assert_eq!(ProviderId::parse("tavily").ok(), Some(ProviderId::Tavily));
    match ProviderId::parse(" Yahoo ") {
        Err(SearchError::ProviderUnavailable { name }) => assert_eq!(name, "yahoo"),
        other => panic!("unexpected {:?}", other.ok()),
    }
    assert_eq!("ddg".parse::<ProviderId>().ok(), Some(ProviderId::DuckDuckGo));
    for id in [
        ProviderId::DuckDuckGo,
        ProviderId::Wikipedia,
        ProviderId::SearXNG,
        ProviderId::Brave,
        ProviderId::Tavily,
    ] {
        assert_eq!(ProviderId::parse(id.as_str()).ok(), Some(id));
    }
}

#[test]
fn environment_fills_in_what_the_builder_leaves_unset() {
    let env = ProviderEnv {
        provider: Some(String::from("brave")),
        searxng_url: None,
        brave_api_key: Some(String::from("env-key")),
        tavily_api_key: None,
    };
    let client = SearchClient::from_env(&env).ok().unwrap();
    assert_eq!(client.provider(), ProviderId::Brave);
    let client = SearchClient::builder()
        .brave_api_key(SecretString::new("explicit"))
        .build(&env)
        .ok()
        .unwrap();
    assert_eq!(client.id(), "brave");
    let client = SearchClient::from_env(&ProviderEnv::empty()).ok().unwrap();
    assert_eq!(client.id(), "duckduckgo");
}

#[test]
fn missing_credentials_are_reported() {
    let env = ProviderEnv::empty();
    assert!(matches!(
        SearchClient::from_provider_name("searxng", &env).err().unwrap(),
        SearchError::MissingSearxngUrl
    ));
    assert!(matches!(
        SearchClient::from_provider_name("brave", &env).err().unwrap(),
        SearchError::MissingApiKey { provider: "brave", env_var: "BRAVE_API_KEY" }
    ));
    assert!(matches!(
        SearchClient::from_provider_name("tavily", &env).err().unwrap(),
        SearchError::MissingApiKey { provider: "tavily", env_var: "TAVILY_API_KEY" }
    ));
}

#[test]
fn retry_override_reaches_the_provider() {
    let client = SearchClient::builder()
        .provider("wikipedia")
        .retry(RetryPolicy::none())
        .build(&ProviderEnv::empty())
        .ok()
        .unwrap();
    assert_eq!(client.retry_policy().max_retries, 0);
    let client = SearchClient::builder()
        .provider("tavily")
        .tavily_api_key(SecretString::new("k"))
        .tavily_include_answer(true)
        .build(&ProviderEnv::empty())
        .ok()
        .unwrap();
    assert_eq!(client.retry_policy().max_retries, 3);
}

fn options() -> SearchOptions {
    SearchOptions {
        query: String::from("rust async"),
        provider: String::from("ddg"),
        limit: 500,
        sources: vec![SourceArg::News, SourceArg::Images],
        time_range: Some(TimeRangeArg::Month),
        country: Some(String::from("us")),
        language: Some(String::from("en")),
        safesearch: SafeSearchArg::Off,
        searxng_url: None,
    }
}

#[test]
fn search_options_become_a_query() {
    let q = options().build_query();
    assert_eq!(q.query, "rust async");
    assert_eq!(q.limit, 100);
    assert_eq!(q.sources, vec![SearchSource::News, SearchSource::Images]);
    assert_eq!(q.time_range, Some(TimeRange::Month));
    assert_eq!(q.country.as_deref(), Some("us"));
    assert_eq!(q.language.as_deref(), Some("en"));
    assert_eq!(q.safesearch, SafeSearch::Off);
    let mut o = options();
    o.sources = vec![];
    o.time_range = None;
    o.language = None;
    let q = o.build_query();
    assert_eq!(q.sources, vec![SearchSource::Web]);
    assert_eq!(q.time_range, None);
    assert_eq!(q.language, None);
}

#[test]
fn search_options_select_the_client() {
    let client = options().build_client(&ProviderEnv::empty()).ok().unwrap();
    assert_eq!(client.id(), "duckduckgo");
    let mut o = options();
    o.provider = String::from("searxng");
    o.searxng_url = Some(String::from("https://searx.example.org"));
    assert_eq!(o.build_client(&ProviderEnv::empty()).ok().unwrap().id(), "searxng");
}

#[test]
fn json_errors_in_json_and_scrape_modes() {
    assert!(wants_json_error(true, false));
    assert!(wants_json_error(false, true));
    assert!(!wants_json_error(false, false));
}

#[test]
fn command_line_values_convert() {
    assert_eq!(SearchSource::from(SourceArg::Web), SearchSource::Web);
    assert_eq!(SearchSource::from(SourceArg::Images), SearchSource::Images);
    assert_eq!(TimeRange::from(TimeRangeArg::Day), TimeRange::Day);
    assert_eq!(TimeRange::from(TimeRangeArg::Year), TimeRange::Year);
    assert_eq!(SafeSearch::from(SafeSearchArg::Moderate), SafeSearch::Moderate);
    let s: SafeSearch = SafeSearchArg::Strict.into();
    assert_eq!(s, SafeSearch::Strict);
}

#[test]
fn collected_inputs_skip_stdin_blanks_and_comments() {
    let inputs = vec![String::from("a.html"), String::from("-"), String::from("https://b.org")];
    let v = collect_inputs(&inputs, Some("https://x.org\n  # note\n\n  https://y.org  \r\n#c"));
    assert_eq!(v, vec!["a.html", "https://b.org", "https://x.org", "https://y.org"]);
    assert_eq!(collect_inputs(&inputs, None), vec!["a.html", "https://b.org"]);
    assert!(collect_inputs(&Vec::new(), Some("")).is_empty());
    assert_eq!(collect_inputs(&Vec::new(), Some("last")), vec!["last"]);
}
