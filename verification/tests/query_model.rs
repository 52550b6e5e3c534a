use h2m_search::query::{SafeSearch, SearchQuery, SearchSource, TimeRange};
use h2m_search::response::{SearchHit, SearchResponse};

#[test]
fn new_defaults() {
    let q = SearchQuery::new("rust");
    assert_eq!(q.query, "rust");
    assert_eq!(q.limit, 10);
    assert_eq!(q.sources, vec![SearchSource::Web]);
    assert_eq!(q.safesearch, SafeSearch::Moderate);
}

#[test]
fn limit_clamp() {
    assert_eq!(SearchQuery::new("x").with_limit(0).limit, 1);
    assert_eq!(SearchQuery::new("x").with_limit(500).limit, 100);
    assert_eq!(SearchQuery::new("x").with_limit(25).limit, 25);
}

#[test]
fn empty_sources_fallback_to_web() {
    let q = SearchQuery::new("x").with_sources(vec![]);
    assert_eq!(q.sources, vec![SearchSource::Web]);
}

#[test]
fn is_valid_rejects_whitespace() {
    assert!(!SearchQuery::new("   ").is_valid());
    assert!(SearchQuery::new("x").is_valid());
}

#[test]
fn builder_setters_fill_filters() {
    let q = SearchQuery::new("x")
        .with_time_range(TimeRange::Week)
        .with_language("zh")
        .with_country("cn")
        .with_safesearch(SafeSearch::Strict)
        .with_sources(vec![SearchSource::News, SearchSource::Images]);
    assert_eq!(q.time_range, Some(TimeRange::Week));
    assert_eq!(q.language.as_deref(), Some("zh"));
    assert_eq!(q.country.as_deref(), Some("cn"));
    assert_eq!(q.safesearch, SafeSearch::Strict);
    assert_eq!(q.sources, vec![SearchSource::News, SearchSource::Images]);
    assert_eq!(q.limit, 10);
}

#[test]
fn limit_boundaries_are_kept() {
    assert_eq!(SearchQuery::new("x").with_limit(1).limit, 1);
    assert_eq!(SearchQuery::new("x").with_limit(100).limit, 100);
    assert_eq!(SearchQuery::new("x").with_limit(101).limit, 100);
}

#[test]
fn enum_identifiers() {
    assert_eq!(SearchSource::Web.as_str(), "web");
    assert_eq!(SearchSource::News.as_str(), "news");
    assert_eq!(SearchSource::Images.as_str(), "images");
    assert_eq!(TimeRange::Day.as_searxng(), "day");
    assert_eq!(TimeRange::Week.as_searxng(), "month");
    assert_eq!(TimeRange::Year.as_searxng(), "year");
    assert_eq!(TimeRange::Month.as_tbs(), "qdr:m");
    assert_eq!(SafeSearch::Off.as_u8(), 0);
    assert_eq!(SafeSearch::Strict.as_u8(), 2);
    assert_eq!(SafeSearch::default(), SafeSearch::Moderate);
}

#[test]
fn total_counts_all_sources() {
    let mut r = SearchResponse::new("q", "test");
    r.push(SearchSource::Web, SearchHit::new("a", "https://a"));
    r.push(SearchSource::News, SearchHit::new("b", "https://b"));
    r.push(SearchSource::Images, SearchHit::new("c", "https://c"));
    assert_eq!(r.total(), 3);
    assert_eq!(r.all_hits().len(), 3);
}

#[test]
fn all_hits_lists_web_then_news_then_images() {
    let mut r = SearchResponse::new("q", "test");
    r.push(SearchSource::Images, SearchHit::new("i", "https://i"));
    r.push(SearchSource::News, SearchHit::new("n", "https://n"));
    r.push(SearchSource::Web, SearchHit::new("w1", "https://w1"));
    r.push(SearchSource::Web, SearchHit::new("w2", "https://w2"));
    let titles: Vec<&str> = r.all_hits().iter().map(|h| h.title.as_str()).collect();
    assert_eq!(titles, vec!["w1", "w2", "n", "i"]);
    assert_eq!(r.query, "q");
    assert_eq!(r.provider, "test");
    assert_eq!(r.elapsed_ms, 0);
}

#[test]
fn hit_builders_attach_fields() {
    let h = SearchHit::new("t", "https://u")
        .with_description("d")
        .with_published_at("2025-01-01")
        .with_engine("google")
        .with_score(0.5f64.to_bits());
    assert_eq!(h.title, "t");
    assert_eq!(h.url, "https://u");
    assert_eq!(h.description.as_deref(), Some("d"));
    assert_eq!(h.published_at.as_deref(), Some("2025-01-01"));
    assert_eq!(h.engine.as_deref(), Some("google"));
    assert_eq!(h.score.map(f64::from_bits), Some(0.5));
}
