use h2m_search::error::SearchError;
use h2m_search::providers::common::Method;
use h2m_search::providers::wikipedia::{
    article_url, build_endpoint, clean_snippet, decode_entities, WikiBody, WikiResult, Wikipedia,
};
use h2m_search::query::SearchQuery;
use h2m_search::retry::RetryPolicy;

#[test]
fn article_url_escapes_special_chars_but_preserves_parens() {
    assert_eq!(
        article_url("en", "Rust (programming language)"),
        "https://en.wikipedia.org/wiki/Rust_(programming_language)"
    );
    assert_eq!(article_url("zh", "Rust语言"), "https://zh.wikipedia.org/wiki/Rust%E8%AF%AD%E8%A8%80");
    assert_eq!(
        article_url("en", "C# (programming language)"),
        "https://en.wikipedia.org/wiki/C%23_(programming_language)"
    );
}

#[test]
fn clean_snippet_strips_highlight_tags_and_decodes_entities() {
    assert_eq!(clean_snippet("<span class=\"searchmatch\">Rust</span> &amp; Go"), "Rust & Go");
    assert_eq!(clean_snippet("Nested <b><i>tags</i></b> removed"), "Nested tags removed");
    assert_eq!(clean_snippet("Plain text"), "Plain text");
    assert_eq!(clean_snippet("  trimmed  "), "trimmed");
}

#[test]
fn entities_decode_in_order() {
    assert_eq!(decode_entities("&lt;b&gt; &quot;q&quot; &#039;s&#39; a&nbsp;b"), "<b> \"q\" 's' a b");
    assert_eq!(decode_entities("&amp;lt;"), "<");
}

#[test]
fn build_endpoint_rejects_invalid_language() {
    assert!(build_endpoint("").is_err());
    assert!(build_endpoint("en/../evil").is_err());
    assert!(build_endpoint(" ").is_err());
    assert!(build_endpoint("en").is_ok());
    assert!(build_endpoint("zh-tw").is_ok());
}

#[test]
fn endpoint_and_error_texts() {
    assert_eq!(build_endpoint(" en ").ok().unwrap(), "https://en.wikipedia.org/w/api.php");
    match build_endpoint("en/x") {
        Err(SearchError::Config { message }) => {
            assert_eq!(message, "invalid Wikipedia language code: \"en/x\"")
        }
        other => panic!("unexpected {other:?}"),
    }
}

fn provider() -> Wikipedia {
    Wikipedia::builder().retry(RetryPolicy::none()).build().ok().unwrap()
}

#[test]
fn request_asks_the_search_api() {
    let p = provider();
    let req = p.prepare(&SearchQuery::new("rust lang").with_limit(80)).ok().unwrap();
    assert_eq!(req.method, Method::Get);
    assert_eq!(
        req.url,
        "https://en.wikipedia.org/w/api.php?action=query&list=search&srsearch=rust+lang&srlimit=50\
         &srprop=snippet%7Ctimestamp%7Cwordcount&format=json&formatversion=2&utf8=1&origin=*"
    );
    assert!(req.headers.is_empty());
    assert!(req.body.is_none());
    let zh = p.prepare(&SearchQuery::new("x").with_language("zh")).ok().unwrap();
    assert!(zh.url.starts_with("https://zh.wikipedia.org/w/api.php?"));
}

#[test]
fn wikipedia_empty_query_is_rejected() {
    assert!(matches!(provider().prepare(&SearchQuery::new("")), Err(SearchError::Config { .. })));
}

fn result(title: &str, snippet: &str) -> WikiResult {
    WikiResult {
        title: title.to_owned(),
        snippet: snippet.to_owned(),
        timestamp: Some(String::from("2026-04-15T12:00:00Z")),
    }
}

#[test]
fn assemble_maps_fields_and_builds_article_url() {
    let body = WikiBody {
        search: vec![
            result(
                "Rust (programming language)",
                "<span class=\"searchmatch\">Rust</span> is a systems language.",
            ),
            result("Turing machine", ""),
        ],
    };
    let q = SearchQuery::new("rust");
    let r = provider().assemble(&q, body);
    assert_eq!(r.provider, "wikipedia");
    assert_eq!(r.web.len(), 2);
    assert_eq!(r.web[0].title, "Rust (programming language)");
    assert_eq!(r.web[0].url, "https://en.wikipedia.org/wiki/Rust_(programming_language)");
    assert_eq!(r.web[0].description.as_deref(), Some("Rust is a systems language."));
    assert_eq!(r.web[0].published_at.as_deref(), Some("2026-04-15T12:00:00Z"));
    assert_eq!(r.web[0].engine.as_deref(), Some("wikipedia"));
    assert_eq!(r.web[1].description, None);
}

#[test]
fn wikipedia_assemble_truncates_to_limit() {
    let body = WikiBody { search: (0..20).map(|i| result(&format!("Article {i}"), "")).collect() };
    let r = provider().assemble(&SearchQuery::new("x").with_limit(5), body);
    assert_eq!(r.web.len(), 5);
    assert_eq!(r.news.len(), 0);
}

#[test]
fn builder_language_ignores_blank_values() {
    let p = Wikipedia::builder().language("  ").build().ok().unwrap();
    assert_eq!(p.language(), "en");
    let p = Wikipedia::builder().language("ja").build().ok().unwrap();
    assert_eq!(p.language(), "ja");
    assert_eq!(Wikipedia::new().ok().unwrap().retry_policy().max_retries, 3);
}
