use h2m_search::error::SearchError;
use h2m_search::providers::brave::{Brave, BraveBody, BraveResult, BraveSection, BraveStep};
use h2m_search::providers::common::Method;
use h2m_search::providers::searxng::{
    build_categories, classify_source, SearXNG, SearxngResult, SearxngStep,
};
use h2m_search::providers::tavily::{payload, Tavily, TavilyBody, TavilyResult, TavilyTopic};
use h2m_search::query::{SafeSearch, SearchQuery, SearchSource, TimeRange};
use h2m_search::retry::RetryPolicy;
use h2m_search::secret::SecretString;

#[test]
fn bad_base_url_is_config_error() {
    assert!(matches!(SearXNG::new("not a url"), Err(SearchError::Config { .. })));
}

#[test]
fn categories_are_distinct_and_ordered() {
    assert_eq!(build_categories(&[SearchSource::Web]), "general");
    assert_eq!(
        build_categories(&[SearchSource::News, SearchSource::Web, SearchSource::News]),
        "news,general"
    );
    assert_eq!(build_categories(&[]), "");
}

#[test]
fn searxng_categories_file_results() {
    assert_eq!(classify_source(Some("news")), SearchSource::News);
    assert_eq!(classify_source(Some("images")), SearchSource::Images);
    assert_eq!(classify_source(Some("general")), SearchSource::Web);
    assert_eq!(classify_source(None), SearchSource::Web);
}

fn searx_result(i: usize, category: &str) -> SearxngResult {
    SearxngResult {
        url: format!("https://example.com/{i}"),
        title: format!("R{i}"),
        content: Some(String::new()),
        engine: Some(String::from("google")),
        category: Some(category.to_owned()),
        published_date: None,
    }
}

#[test]
fn searxng_paginates_until_the_limit() {
    let p = SearXNG::builder("https://searx.example.org").retry(RetryPolicy::none()).build().ok().unwrap();
    let q = SearchQuery::new("rust").with_limit(45).with_time_range(TimeRange::Day);
    let (request, search) = match p.start(q) {
        SearxngStep::Fetch { request, search } => (request, search),
        SearxngStep::Done(_) => panic!("the first page is requested"),
    };
    assert_eq!(request.method, Method::Get);
    assert_eq!(
        request.url,
        "https://searx.example.org/search?q=rust&format=json&pageno=1&safesearch=1&categories=general&time_range=day"
    );
    let page1: Vec<SearxngResult> = (0..30).map(|i| searx_result(i, "general")).collect();
    let (request, search) = match search.on_page(&p, Ok(page1)) {
        SearxngStep::Fetch { request, search } => (request, search),
        SearxngStep::Done(_) => panic!("a full page asks for the next"),
    };
    assert!(request.url.contains("pageno=2"));
    let page2: Vec<SearxngResult> = (30..60).map(|i| searx_result(i, "news")).collect();
    let (request, search) = match search.on_page(&p, Ok(page2)) {
        SearxngStep::Fetch { request, search } => (request, search),
        SearxngStep::Done(_) => panic!("the web section is still short of the limit"),
    };
    assert!(request.url.contains("pageno=3"));
    let page3: Vec<SearxngResult> = (60..80).map(|i| searx_result(i, "general")).collect();
    match search.on_page(&p, Ok(page3)) {
        SearxngStep::Done(Ok(r)) => {
            assert_eq!(r.total(), 75);
            assert_eq!(r.web.len(), 45);
            assert_eq!(r.news.len(), 30);
            assert_eq!(r.web[0].description, None);
            assert_eq!(r.web[0].engine.as_deref(), Some("google"));
            assert_eq!(r.web[44].url, searx_result(74, "general").url);
        }
        _ => panic!("the limit ends the search"),
    }
}

#[test]
fn searxng_errors_end_the_search() {
    let p = SearXNG::new("https://searx.example.org").ok().unwrap();
    let search = match p.start(SearchQuery::new("rust")) {
        SearxngStep::Fetch { search, .. } => search,
        SearxngStep::Done(_) => panic!("fetch expected"),
    };
    assert!(matches!(
        search.on_page(&p, Err(SearchError::ServerError { provider: "searxng", status: 503 })),
        SearxngStep::Done(Err(SearchError::ServerError { status: 503, .. }))
    ));
    assert!(matches!(p.start(SearchQuery::new(" ")), SearxngStep::Done(Err(SearchError::Config { .. }))));
}

fn brave_result(title: &str, url: &str) -> BraveResult {
    BraveResult { title: title.to_owned(), url: url.to_owned(), description: Some(String::from("lang")), age: None }
}

#[test]
fn brave_request_carries_the_token() {
    let p = Brave::with_base_url(SecretString::new("KEY"), "https://api.example.org").ok().unwrap();
    let q = SearchQuery::new("rust").with_limit(50).with_safesearch(SafeSearch::Strict).with_country("us");
    let req = p.prepare(&q).ok().unwrap();
    assert_eq!(req.method, Method::Get);
    assert_eq!(
        req.url,
        "https://api.example.org/res/v1/web/search?q=rust&count=20&safesearch=strict&country=us"
    );
    assert_eq!(req.headers[0], (String::from("X-Subscription-Token"), String::from("KEY")));
    assert_eq!(req.headers[1], (String::from("Accept"), String::from("application/json")));
}

#[test]
fn brave_blank_key_and_query_are_rejected() {
    let p = Brave::new(SecretString::new("  ")).ok().unwrap();
    assert!(matches!(
        p.prepare(&SearchQuery::new("rust")),
        Err(SearchError::MissingApiKey { provider: "brave", env_var: "BRAVE_API_KEY" })
    ));
    let p = Brave::new(SecretString::new("KEY")).ok().unwrap();
    assert!(matches!(p.prepare(&SearchQuery::new("")), Err(SearchError::Config { .. })));
}

#[test]
fn brave_pages_respect_sources_and_limit() {
    let p = Brave::with_base_url(SecretString::new("KEY"), "https://api.example.org").ok().unwrap();
    let body = || BraveBody {
        web: Some(BraveSection {
            results: vec![brave_result("Rust", "https://r.io"), brave_result("W2", "https://w2")],
        }),
        news: Some(BraveSection { results: vec![brave_result("News", "https://n.io")] }),
    };
    let q = SearchQuery::new("rust").with_sources(vec![SearchSource::Web, SearchSource::News]);
    let search = match p.start(q) {
        BraveStep::Fetch { request, search } => {
            assert!(!request.url.contains("offset"));
            search
        }
        BraveStep::Done(_) => panic!("the first page is requested"),
    };
    match search.on_page(&p, Ok(body())) {
        BraveStep::Done(Ok(r)) => {
            assert_eq!(r.provider, "brave");
            assert_eq!(r.web.len(), 2);
            assert_eq!(r.news.len(), 1);
            assert_eq!(r.web[0].description.as_deref(), Some("lang"));
        }
        _ => panic!("a short page ends the search"),
    }
    let search = match p.start(SearchQuery::new("rust").with_limit(1)) {
        BraveStep::Fetch { search, .. } => search,
        BraveStep::Done(_) => panic!("the first page is requested"),
    };
    match search.on_page(&p, Ok(body())) {
        BraveStep::Done(Ok(r)) => {
            assert_eq!(r.web.len(), 1);
            assert_eq!(r.news.len(), 0);
        }
        _ => panic!("the limit ends the search"),
    }
}

fn brave_page(from: usize, n: usize) -> BraveBody {
    let results = (from..from + n).map(|i| brave_result(&format!("T{i}"), &format!("https://e.org/{i}"))).collect();
    BraveBody { web: Some(BraveSection { results }), news: None }
}

#[test]
fn brave_paginates_past_twenty_by_offset() {
    let p = Brave::with_base_url(SecretString::new("KEY"), "https://api.example.org").ok().unwrap();
    let q = SearchQuery::new("rust").with_limit(50);
    let search = match p.start(q) {
        BraveStep::Fetch { request, search } => {
            assert!(request.url.starts_with("https://api.example.org/res/v1/web/search?q=rust&count=20&"));
            assert!(!request.url.contains("offset"));
            search
        }
        BraveStep::Done(_) => panic!("the first page is requested"),
    };
    let search = match search.on_page(&p, Ok(brave_page(0, 20))) {
        BraveStep::Fetch { request, search } => {
            assert!(request.url.starts_with("https://api.example.org/res/v1/web/search?q=rust&count=20&"));
            assert!(request.url.ends_with("&offset=1"));
            assert_eq!(request.headers[0], (String::from("X-Subscription-Token"), String::from("KEY")));
            search
        }
        BraveStep::Done(_) => panic!("a full page asks for the next"),
    };
    let search = match search.on_page(&p, Ok(brave_page(20, 20))) {
        BraveStep::Fetch { request, search } => {
            assert!(request.url.ends_with("&offset=2"));
            search
        }
        BraveStep::Done(_) => panic!("a full page asks for the next"),
    };
    match search.on_page(&p, Ok(brave_page(40, 20))) {
        BraveStep::Done(Ok(r)) => {
            assert_eq!(r.web.len(), 50);
            assert_eq!(r.web[0].url, "https://e.org/0");
            assert_eq!(r.web[49].url, "https://e.org/49");
        }
        _ => panic!("the limit ends the search"),
    }
    let search = match p.start(SearchQuery::new("rust").with_limit(50)) {
        BraveStep::Fetch { search, .. } => search,
        BraveStep::Done(_) => panic!("the first page is requested"),
    };
    match search.on_page(&p, Ok(brave_page(0, 7))) {
        BraveStep::Done(Ok(r)) => assert_eq!(r.web.len(), 7),
        _ => panic!("a short page ends the search"),
    }
    let search = match p.start(SearchQuery::new("rust").with_limit(50)) {
        BraveStep::Fetch { search, .. } => search,
        BraveStep::Done(_) => panic!("the first page is requested"),
    };
    assert!(matches!(
        search.on_page(&p, Err(SearchError::RateLimited { provider: "brave", retry_after: None })),
        BraveStep::Done(Err(SearchError::RateLimited { .. }))
    ));
}

#[test]
fn brave_debug_does_not_leak_api_key() {
    let p = Brave::new(SecretString::new("super-secret-brave-key")).ok().unwrap();
    let debug = p.debug_text();
    assert!(!debug.contains("super-secret-brave-key"), "Debug leaked key: {debug}");
    assert!(debug.contains("[REDACTED]"));
}

#[test]
fn tavily_payload_is_json() {
    let q = SearchQuery::new("say \"hi\"").with_limit(50).with_time_range(TimeRange::Week).with_country("united states");
    let body = payload(&q, true, TavilyTopic::News);
    let json: serde_json::Value = serde_json::from_str(&body).unwrap();
    assert_eq!(json["query"], "say \"hi\"");
    assert_eq!(json["max_results"], 20);
    assert_eq!(json["search_depth"], "basic");
    assert_eq!(json["include_answer"], true);
    assert_eq!(json["time_range"], "week");
    assert_eq!(json["topic"], "news");
    assert_eq!(json["country"], "united states");
    assert!(!body.contains("api_key"));
}

#[test]
fn tavily_request_uses_bearer_auth() {
    let p = Tavily::with_base_url(SecretString::new("tvly-KEY"), "https://api.example.org").ok().unwrap();
    let req = p.prepare(&SearchQuery::new("rust")).ok().unwrap();
    assert_eq!(req.method, Method::Post);
    assert_eq!(req.url, "https://api.example.org/search");
    assert_eq!(req.headers[0], (String::from("Authorization"), String::from("Bearer tvly-KEY")));
    let json: serde_json::Value = serde_json::from_str(req.body.as_deref().unwrap()).unwrap();
    assert_eq!(json["topic"], "general");
    assert_eq!(json["include_answer"], false);
    assert!(json.get("country").is_none());
}

#[test]
fn tavily_news_topic_and_answer() {
    let p = Tavily::builder(SecretString::new("KEY")).include_answer(true).build().ok().unwrap();
    let q = SearchQuery::new("rust").with_sources(vec![SearchSource::News]);
    assert_eq!(p.topic(&q), TavilyTopic::News);
    let body = TavilyBody {
        results: vec![TavilyResult {
            title: String::from("Rust"),
            url: String::from("https://n"),
            content: Some(String::from("lang")),
            published_date: Some(String::from("2025-10-01")),
            score: Some(0.87f64.to_bits()),
        }],
        answer: Some(String::from("Rust is a systems programming language.")),
    };
    let r = p.assemble(&q, body);
    assert_eq!(r.provider, "tavily");
    assert_eq!(r.news.len(), 1);
    assert_eq!(r.web.len(), 0);
    assert_eq!(r.answer.as_deref(), Some("Rust is a systems programming language."));
    assert_eq!(r.news[0].score.map(f64::from_bits), Some(0.87));
    let pinned = Tavily::builder(SecretString::new("KEY")).topic(TavilyTopic::Finance).build().ok().unwrap();
    assert_eq!(pinned.topic(&q), TavilyTopic::Finance);
    assert_eq!(TavilyTopic::Finance.as_str(), "finance");
}

#[test]
fn tavily_blank_key_short_circuits_and_debug_is_redacted() {
    let p = Tavily::new(SecretString::new("")).ok().unwrap();
    assert!(matches!(
        p.prepare(&SearchQuery::new("rust")),
        Err(SearchError::MissingApiKey { provider: "tavily", .. })
    ));
    let p = Tavily::new(SecretString::new("tvly-super-secret")).ok().unwrap();
    assert!(!p.debug_text().contains("tvly-super-secret"));
}
