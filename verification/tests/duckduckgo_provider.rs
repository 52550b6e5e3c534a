use h2m_search::error::SearchError;
use h2m_search::providers::common::Method;
use h2m_search::providers::duckduckgo::captcha::{is_recoverable_via_lite, looks_like_captcha};
use h2m_search::providers::duckduckgo::http::{
    finalize_status, finalize_text, html_request, lite_request, pick_user_agent, user_agent_for,
    user_agents,
};
use h2m_search::providers::duckduckgo::params::{
    accept_header, accept_language, encode_form, region_code, safesearch_token, time_range_token,
};
use h2m_search::providers::duckduckgo::parse::{
    collect_text, parse_html_results, parse_lite_results, unwrap_ddg_url,
};
use h2m_search::providers::duckduckgo::{DdgPage, DdgStep, DuckDuckGo};
use h2m_search::query::{SafeSearch, SearchQuery, TimeRange};
use h2m_search::response::SearchHit;
use h2m_search::retry::RetryPolicy;

fn captcha_markers() {
    assert!(looks_like_captcha("short"));
    assert!(looks_like_captcha(&format!("{pad}anomaly-modal{pad}", pad = "x".repeat(400))));
    assert!(!looks_like_captcha(
        &"<html><body><div class=\"result\">ok</div></body></html>".repeat(20)
    ));
}

#[test]
fn duckduckgo_captcha_markers_detected() {
    captcha_markers();
}

#[test]
fn captcha_captcha_markers_detected() {
    captcha_markers();
}

#[test]
fn is_recoverable_only_for_fallback_eligible_errors() {
    assert!(is_recoverable_via_lite(&SearchError::CaptchaDetected { provider: "duckduckgo" }));
    assert!(is_recoverable_via_lite(&SearchError::ParseFailed {
        provider: "duckduckgo",
        message: String::new(),
    }));
    assert!(is_recoverable_via_lite(&SearchError::RateLimited {
        provider: "duckduckgo",
        retry_after: None,
    }));
    assert!(!is_recoverable_via_lite(&SearchError::AuthFailed { provider: "duckduckgo", status: 401 }));
}

#[test]
fn duckduckgo_user_agent_pool_is_populated() {
    let pool = user_agents();
    assert!(!pool.is_empty());
    for ua in pool {
        assert!(ua.starts_with("Mozilla/5.0"));
    }
}

#[test]
fn http_user_agent_pool_is_populated() {
    for ua in user_agents() {
        assert!(ua.starts_with("Mozilla/5.0"));
    }
}

#[test]
fn pick_user_agent_returns_pool_entry() {
    let ua = pick_user_agent();
    assert!(user_agents().contains(&ua));
}

#[test]
fn user_agent_rotates_with_the_clock() {
    let pool = user_agents();
    assert_eq!(pool.len(), 10);
    assert_eq!(user_agent_for(0), pool[0]);
    assert_eq!(user_agent_for(13), pool[3]);
    assert_eq!(user_agent_for(999_999_999), pool[9]);
}

fn region_codes() {
    let q_full = SearchQuery::new("x").with_country("us").with_language("en");
    assert_eq!(region_code(&q_full), "us-en");
    let q_country = SearchQuery::new("x").with_country("CN");
    assert_eq!(region_code(&q_country), "cn-en");
    let q_lang = SearchQuery::new("x").with_language("ZH");
    assert_eq!(region_code(&q_lang), "us-zh");
    assert_eq!(region_code(&SearchQuery::new("x")), "wt-wt");
}

#[test]
fn duckduckgo_region_code_maps_country_language() {
    region_codes();
}

#[test]
fn params_region_code_maps_country_language() {
    region_codes();
}

fn token_mappings() {
    assert_eq!(safesearch_token(SafeSearch::Off), "-2");
    assert_eq!(safesearch_token(SafeSearch::Moderate), "-1");
    assert_eq!(safesearch_token(SafeSearch::Strict), "1");
    assert_eq!(time_range_token(TimeRange::Day), "d");
    assert_eq!(time_range_token(TimeRange::Week), "w");
    assert_eq!(time_range_token(TimeRange::Month), "m");
    assert_eq!(time_range_token(TimeRange::Year), "y");
}

#[test]
fn duckduckgo_safesearch_and_time_range_mapping() {
    token_mappings();
}

#[test]
fn params_safesearch_and_time_range_mapping() {
    token_mappings();
}

#[test]
fn accept_language_falls_back_to_english() {
    assert_eq!(accept_language(&SearchQuery::new("x")), "en-US,en;q=0.9");
    assert_eq!(accept_language(&SearchQuery::new("x").with_language("zh")), "zh,zh;q=0.9,en;q=0.8");
    assert_eq!(accept_language(&SearchQuery::new("x").with_language("")), "en-US,en;q=0.9");
}

fn unwrap_cases() {
    assert_eq!(
        unwrap_ddg_url("//duckduckgo.com/l/?uddg=https%3A%2F%2Frust-lang.org%2F&rut=xyz"),
        "https://rust-lang.org/"
    );
    assert_eq!(
        unwrap_ddg_url("/l/?uddg=https%3A%2F%2Fdocs.rs%2Fasync-trait&rut=abc"),
        "https://docs.rs/async-trait"
    );
    assert_eq!(
        unwrap_ddg_url("https://html.duckduckgo.com/l/?uddg=https%3A%2F%2Fexample.com%2F"),
        "https://example.com/"
    );
    assert_eq!(unwrap_ddg_url("https://rust-lang.org/"), "https://rust-lang.org/", "plain URLs pass through");
    assert_eq!(unwrap_ddg_url(""), "");
}

#[test]
fn duckduckgo_unwrap_handles_protocol_relative_and_absolute() {
    unwrap_cases();
}

#[test]
fn parse_unwrap_handles_protocol_relative_and_absolute() {
    unwrap_cases();
}

#[test]
fn unwrap_keeps_foreign_and_relative_links() {
    assert_eq!(unwrap_ddg_url("  /about  "), "https://duckduckgo.com/about");
    assert_eq!(
        unwrap_ddg_url("https://example.com/l/?uddg=https%3A%2F%2Fx.org"),
        "https://example.com/l/?uddg=https%3A%2F%2Fx.org"
    );
    assert_eq!(unwrap_ddg_url("https://duckduckgo.com/y.js?uddg=a"), "https://duckduckgo.com/y.js?uddg=a");
}

#[test]
fn collect_text_joins_trimmed_chunks() {
    let chunks = vec![String::from("  Rust "), String::from("\n"), String::from("Lang\t")];
    assert_eq!(collect_text(&chunks), "Rust Lang");
    assert_eq!(collect_text(&vec![]), "");
}

#[test]
fn form_values_are_percent_encoded() {
    assert_eq!(encode_form("a b&c=d+e"), "a%20b%26c%3Dd%2Be");
    assert_eq!(encode_form("é"), "%C3%A9");
    assert_eq!(encode_form("plain-text_1.0"), "plain-text_1.0");
}

fn html_page(results: &str) -> String {
    format!("<html><body><div id=\"links\">{results}</div>{}</body></html>", "<!-- padding -->".repeat(40))
}

fn html_result(title: &str, href: &str, snippet: &str) -> String {
    format!(
        "<div class=\"result\"><h2><a class=\"result__a\" href=\"{href}\">{title}</a></h2>\
         <a class=\"result__snippet\" href=\"{href}\">{snippet}</a></div>"
    )
}

#[test]
fn html_layout_yields_hits() {
    let body = html_page(&format!(
        "{}{}{}",
        html_result(
            "Rust Programming Language",
            "//duckduckgo.com/l/?uddg=https%3A%2F%2Fwww.rust-lang.org%2F&rut=1",
            "A language empowering <b>everyone</b>."
        ),
        html_result("Untitled", "", "no link"),
        html_result("Docs", "https://doc.rust-lang.org/", "  ")
    ));
    let hits = parse_html_results(&body).ok().unwrap();
    assert_eq!(hits.len(), 2);
    assert_eq!(hits[0].title, "Rust Programming Language");
    assert_eq!(hits[0].url, "https://www.rust-lang.org/");
    assert_eq!(hits[0].description.as_deref(), Some("A language empowering everyone ."));
    assert_eq!(hits[0].engine.as_deref(), Some("duckduckgo"));
    assert_eq!(hits[1].url, "https://doc.rust-lang.org/");
    assert_eq!(hits[1].description, None);
}

#[test]
fn html_layout_without_results_is_a_parse_failure() {
    let filler = "<p>lorem ipsum dolor sit amet</p>".repeat(60);
    let body = format!("<html><body>{filler}</body></html>");
    assert!(matches!(parse_html_results(&body), Err(SearchError::ParseFailed { provider: "duckduckgo", .. })));
    let empty = format!("<html><body>No results found{filler}</body></html>");
    assert_eq!(parse_html_results(&empty).ok().unwrap().len(), 0);
    assert_eq!(parse_html_results("<html></html>").ok().unwrap().len(), 0);
}

#[test]
fn lite_layout_takes_the_next_row_as_snippet() {
    let body = format!(
        "<html><body><table>\
         <tr><td><a class=\"result-link\" href=\"https://www.rust-lang.org/\">Rust Lang</a></td></tr>\
         <tr><td class=\"result-snippet\">Reliable software.</td></tr>\
         <tr><td>www.rust-lang.org</td></tr><tr><td>&nbsp;</td></tr>\
         <tr><td><a class=\"result-link\" href=\"/l/?uddg=https%3A%2F%2Fcrates.io%2F\">Crates</a></td></tr>\
         </table>{}</body></html>",
        "<!-- padding -->".repeat(40)
    );
    let hits = parse_lite_results(&body).ok().unwrap();
    assert_eq!(hits.len(), 2);
    assert_eq!(hits[0].title, "Rust Lang");
    assert_eq!(hits[0].description.as_deref(), Some("Reliable software."));
    assert_eq!(hits[1].url, "https://crates.io/");
    assert_eq!(hits[1].description, None);
    let filler = "<p>lorem ipsum dolor sit amet</p>".repeat(60);
    let body = format!("<html><body>{filler}</body></html>");
    assert!(matches!(parse_lite_results(&body), Err(SearchError::ParseFailed { .. })));
}

#[test]
fn requests_are_form_posts() {
    let q = SearchQuery::new("rust lang").with_time_range(TimeRange::Week);
    let req = html_request("https://html.duckduckgo.com/html/", &q, 25, "UA");
    assert_eq!(req.method, Method::Post);
    assert_eq!(req.url, "https://html.duckduckgo.com/html/");
    assert_eq!(
        req.body.as_deref(),
        Some("q=rust+lang&b=&kl=wt-wt&safe=-1&s=25&dc=25&v=l&o=json&api=d.js&df=w")
    );
    assert_eq!(req.headers[0], (String::from("User-Agent"), String::from("UA")));
    assert_eq!(req.headers[3], (String::from("Referer"), String::from("https://duckduckgo.com/")));
    assert_eq!(req.headers.len(), 7);
    assert_eq!(req.headers[1].1, accept_header());
    let first = html_request("e", &SearchQuery::new("x"), 0, "UA");
    assert_eq!(first.body.as_deref(), Some("q=x&b=&kl=wt-wt&safe=-1"));
    let lite = lite_request("https://lite.duckduckgo.com/lite/", &SearchQuery::new("x"), "UA");
    assert_eq!(lite.body.as_deref(), Some("q=x&kl=wt-wt&safe=-1"));
    assert_eq!(lite.headers.len(), 5);
    assert_eq!(lite.headers[4].1, "application/x-www-form-urlencoded");
}

#[test]
fn answers_are_checked_for_challenges() {
    assert!(finalize_status(200, None).is_none());
    assert!(matches!(finalize_status(429, Some("3")), Some(SearchError::RateLimited { .. })));
    assert!(matches!(finalize_status(202, None), Some(SearchError::CaptchaDetected { provider: "duckduckgo" })));
    assert!(finalize_status(204, None).is_none());
    assert!(matches!(finalize_text(Ok(String::new())), Err(SearchError::CaptchaDetected { .. })));
    let page = "<div class=\"result\">ok</div>".repeat(30);
    assert_eq!(finalize_text(Ok(page.clone())).ok().unwrap(), page);
    match finalize_text(Err(String::from("eof"))) {
        Err(SearchError::Transport { message, .. }) => assert_eq!(message, "failed to read body: eof"),
        other => panic!("unexpected {:?}", other.err()),
    }
}

fn provider(fallback: bool) -> DuckDuckGo {
    DuckDuckGo::builder()
        .html_endpoint("http://127.0.0.1:9/html")
        .lite_endpoint("http://127.0.0.1:9/lite")
        .retry(RetryPolicy::none())
        .fallback(fallback)
        .build()
        .ok()
        .unwrap()
}

fn hits(n: usize) -> Vec<SearchHit> {
    (0..n).map(|i| SearchHit::new(&format!("t{i}"), &format!("https://e/{i}"))).collect()
}

#[test]
fn search_reads_pages_until_the_limit() {
    let p = provider(true);
    let step = p.start(SearchQuery::new("rust").with_limit(30));
    let search = match step {
        DdgStep::Fetch(s) => s,
        DdgStep::Done(_) => panic!("a valid query starts with a fetch"),
    };
    assert_eq!(search.page(), DdgPage::Html { page: 0 });
    assert_eq!(p.request(&search).url, "http://127.0.0.1:9/html");
    let search = match search.on_page(&p, Ok(hits(25))) {
        DdgStep::Fetch(s) => s,
        DdgStep::Done(_) => panic!("a full page below the limit asks for the next page"),
    };
    assert_eq!(search.page(), DdgPage::Html { page: 1 });
    assert!(p.request(&search).body.unwrap().contains("&s=25&"));
    match search.on_page(&p, Ok(hits(25))) {
        DdgStep::Done(Ok(r)) => {
            assert_eq!(r.web.len(), 30);
            assert_eq!(r.provider, "duckduckgo");
            assert_eq!(r.web[29].title, "t4");
        }
        _ => panic!("the limit ends the search"),
    }
}

#[test]
fn short_page_ends_the_search() {
    let p = provider(true);
    let search = match p.start(SearchQuery::new("rust")) {
        DdgStep::Fetch(s) => s,
        DdgStep::Done(_) => panic!("fetch expected"),
    };
    match search.on_page(&p, Ok(hits(3))) {
        DdgStep::Done(Ok(r)) => assert_eq!(r.web.len(), 3),
        _ => panic!("a short page ends the search"),
    }
}

#[test]
fn recoverable_errors_fall_back_to_lite() {
    let p = provider(true);
    let search = match p.start(SearchQuery::new("rust").with_limit(2)) {
        DdgStep::Fetch(s) => s,
        DdgStep::Done(_) => panic!("fetch expected"),
    };
    let lite = match search.on_page(&p, Err(SearchError::CaptchaDetected { provider: "duckduckgo" })) {
        DdgStep::Fetch(s) => s,
        DdgStep::Done(_) => panic!("a captcha falls back to lite"),
    };
    assert_eq!(lite.page(), DdgPage::Lite);
    assert_eq!(p.request(&lite).url, "http://127.0.0.1:9/lite");
    match lite.on_page(&p, Ok(hits(5))) {
        DdgStep::Done(Ok(r)) => assert_eq!(r.web.len(), 2),
        _ => panic!("lite answers the search"),
    }
}

#[test]
fn disabled_fallback_surfaces_the_error() {
    let p = provider(false);
    let search = match p.start(SearchQuery::new("rust")) {
        DdgStep::Fetch(s) => s,
        DdgStep::Done(_) => panic!("fetch expected"),
    };
    assert!(matches!(
        search.on_body(&p, Err(SearchError::CaptchaDetected { provider: "duckduckgo" })),
        DdgStep::Done(Err(SearchError::CaptchaDetected { .. }))
    ));
    let p = provider(true);
    let search = match p.start(SearchQuery::new("rust")) {
        DdgStep::Fetch(s) => s,
        DdgStep::Done(_) => panic!("fetch expected"),
    };
    assert!(matches!(
        search.on_page(&p, Err(SearchError::AuthFailed { provider: "duckduckgo", status: 403 })),
        DdgStep::Done(Err(SearchError::AuthFailed { .. }))
    ));
}

#[test]
fn empty_query_rejected_before_any_request() {
    let p = provider(true);
    assert!(matches!(p.start(SearchQuery::new("  ")), DdgStep::Done(Err(SearchError::Config { .. }))));
}

#[test]
fn builder_defaults() {
    let p = DuckDuckGo::new().ok().unwrap();
    assert!(p.fallback_enabled());
    assert_eq!(p.retry_policy().max_retries, 3);
    let search = match p.start(SearchQuery::new("rust")) {
        DdgStep::Fetch(s) => s,
        DdgStep::Done(_) => panic!("fetch expected"),
    };
    assert_eq!(p.request(&search).url, "https://html.duckduckgo.com/html/");
}
