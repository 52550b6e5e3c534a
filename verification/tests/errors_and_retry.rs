use h2m_search::error::SearchError;
use h2m_search::providers::common::{
    check_status, classify_parse, classify_status, classify_transport, parse_retry_after,
};
use h2m_search::retry::{backoff_delay, next_step, RetryPolicy, RetryStep};
use h2m_search::time::Duration;

#[test]
fn error_json_contract() {
    let err = SearchError::RateLimited { provider: "tavily", retry_after: None };
    let json: serde_json::Value = serde_json::from_str(&err.to_json()).unwrap();
    assert_eq!(json["kind"], "rateLimited");
    assert_eq!(json["provider"], "tavily");
    assert_eq!(json["status"], 429);
}

#[test]
fn error_json_escapes_and_omits_absent_fields() {
    let err = SearchError::Config { message: String::from("bad \"value\"\n") };
    let text = err.to_json();
    let json: serde_json::Value = serde_json::from_str(&text).unwrap();
    assert_eq!(json["error"], "configuration error: bad \"value\"\n");
    assert_eq!(json["kind"], "config");
    assert!(json.get("provider").is_none());
    assert!(json.get("status").is_none());
}

#[test]
fn error_messages_and_metadata() {
    let e = SearchError::AuthFailed { provider: "brave", status: 401 };
    assert_eq!(e.message(), "authentication failed for brave (HTTP 401)");
    assert_eq!(e.kind(), "authFailed");
    assert_eq!(e.status(), Some(401));
    assert_eq!(e.provider(), Some("brave"));
    let e = SearchError::ProviderUnavailable { name: String::from("yahoo") };
    assert_eq!(e.message(), "provider 'yahoo' is not available (missing feature flag)");
    assert_eq!(e.provider(), None);
    let e = SearchError::MissingSearxngUrl;
    assert_eq!(e.message(), "missing SearXNG base URL: set H2M_SEARXNG_URL or pass --searxng-url");
}

#[test]
fn retryable_errors_are_rate_limits_server_errors_and_captchas() {
    assert!(SearchError::RateLimited { provider: "x", retry_after: None }.is_retryable());
    assert!(SearchError::ServerError { provider: "x", status: 502 }.is_retryable());
    assert!(SearchError::CaptchaDetected { provider: "x" }.is_retryable());
    assert!(!SearchError::AuthFailed { provider: "x", status: 403 }.is_retryable());
    assert!(!SearchError::Transport { provider: "x", message: String::new() }.is_retryable());
    assert!(!SearchError::Config { message: String::new() }.is_retryable());
}

#[test]
fn backoff_grows_exponentially() {
    let policy = RetryPolicy {
        max_retries: 5,
        base_delay: Duration::from_millis(100),
        max_delay: Duration::from_secs(10),
    };
    let err = SearchError::ServerError { provider: "x", status: 503 };
    assert_eq!(backoff_delay(&policy, &err, 0), Duration::from_millis(100));
    assert_eq!(backoff_delay(&policy, &err, 1), Duration::from_millis(200));
    assert_eq!(backoff_delay(&policy, &err, 2), Duration::from_millis(400));
}

#[test]
fn backoff_respects_cap() {
    let policy = RetryPolicy {
        max_retries: 10,
        base_delay: Duration::from_secs(1),
        max_delay: Duration::from_secs(5),
    };
    let err = SearchError::ServerError { provider: "x", status: 500 };
    assert_eq!(backoff_delay(&policy, &err, 10), Duration::from_secs(5));
}

#[test]
fn retry_after_wins_over_exponential() {
    let policy = RetryPolicy {
        max_retries: 5,
        base_delay: Duration::from_secs(1),
        max_delay: Duration::from_secs(10),
    };
    let err = SearchError::RateLimited { provider: "x", retry_after: Some(Duration::from_secs(2)) };
    assert_eq!(backoff_delay(&policy, &err, 3), Duration::from_secs(2));
}

#[test]
fn retry_after_is_capped_and_shift_saturates() {
    let policy = RetryPolicy {
        max_retries: 50,
        base_delay: Duration::from_millis(1),
        max_delay: Duration::from_secs(60),
    };
    let long = SearchError::RateLimited { provider: "x", retry_after: Some(Duration::from_secs(600)) };
    assert_eq!(backoff_delay(&policy, &long, 0), Duration::from_secs(60));
    let err = SearchError::ServerError { provider: "x", status: 500 };
    assert_eq!(backoff_delay(&policy, &err, 10), Duration::from_millis(1024));
    assert_eq!(backoff_delay(&policy, &err, 40), Duration::from_millis(1024));
}

#[test]
fn next_step_retries_only_retryable_errors_while_attempts_remain() {
    let policy = RetryPolicy::production();
    let err = SearchError::ServerError { provider: "x", status: 503 };
    match next_step(&policy, &err, 0) {
        RetryStep::Retry { delay, next_attempt } => {
            assert_eq!(delay, Duration::from_millis(500));
            assert_eq!(next_attempt, 1);
        }
        RetryStep::GiveUp => panic!("a server error on the first attempt is retried"),
    }
    assert!(matches!(next_step(&policy, &err, 3), RetryStep::GiveUp));
    let auth = SearchError::AuthFailed { provider: "brave", status: 401 };
    assert!(matches!(next_step(&policy, &auth, 0), RetryStep::GiveUp));
    assert!(matches!(next_step(&RetryPolicy::none(), &err, 0), RetryStep::GiveUp));
}

#[test]
fn policies_have_documented_defaults() {
    let p = RetryPolicy::production();
    assert_eq!(p.max_retries, 3);
    assert_eq!(p.base_delay, Duration::from_millis(500));
    assert_eq!(p.max_delay, Duration::from_secs(10));
    let d = RetryPolicy::default();
    assert_eq!(d.max_retries, 3);
    let n = RetryPolicy::none();
    assert_eq!(n.max_retries, 0);
    assert_eq!(n.base_delay, Duration::zero());
}

#[test]
fn status_429_is_rate_limited_with_hint() {
    let e = classify_status("searxng", 429, Some("7"));
    match e {
        SearchError::RateLimited { provider, retry_after } => {
            assert_eq!(provider, "searxng");
            assert_eq!(retry_after, Some(Duration::from_secs(7)));
        }
        other => panic!("unexpected {other:?}"),
    }
    match classify_status("searxng", 429, Some("Wed, 21 Oct 2015 07:28:00 GMT")) {
        SearchError::RateLimited { retry_after, .. } => assert_eq!(retry_after, None),
        other => panic!("unexpected {other:?}"),
    }
}

#[test]
fn statuses_are_classified() {
    assert!(matches!(
        classify_status("brave", 403, None),
        SearchError::AuthFailed { provider: "brave", status: 403 }
    ));
    assert!(matches!(
        classify_status("wikipedia", 503, None),
        SearchError::ServerError { provider: "wikipedia", status: 503 }
    ));
    match classify_status("tavily", 404, None) {
        SearchError::Transport { provider, message } => {
            assert_eq!(provider, "tavily");
            assert_eq!(message, "unexpected HTTP 404");
        }
        other => panic!("unexpected {other:?}"),
    }
    assert!(check_status("x", 200, None).is_none());
    assert!(check_status("x", 204, None).is_none());
    assert!(check_status("x", 500, None).is_some());
}

#[test]
fn transport_and_parse_failures_keep_their_message() {
    assert!(matches!(
        classify_transport("brave", "connection refused"),
        SearchError::Transport { provider: "brave", ref message } if message == "connection refused"
    ));
    assert!(matches!(
        classify_parse("tavily", "expected value"),
        SearchError::InvalidResponse { provider: "tavily", ref message } if message == "expected value"
    ));
}

#[test]
fn retry_after_header_parsing() {
    assert_eq!(parse_retry_after(Some(" 12 ")), Some(Duration::from_secs(12)));
    assert_eq!(parse_retry_after(Some("+3")), Some(Duration::from_secs(3)));
    assert_eq!(parse_retry_after(Some("-3")), None);
    assert_eq!(parse_retry_after(Some("")), None);
    assert_eq!(parse_retry_after(None), None);
}

#[test]
fn durations_convert_between_units() {
    let d = Duration::new(3, 250_000_000);
    assert_eq!(d.as_secs(), 3);
    assert_eq!(d.subsec_nanos(), 250_000_000);
    assert_eq!(d.as_millis(), 3250);
    assert_eq!(d.as_nanos(), 3_250_000_000);
    assert_eq!(Duration::from_millis(1500).min(Duration::from_secs(1)), Duration::from_secs(1));
    assert_eq!(Duration::from_secs(2).saturating_mul(3), Duration::from_secs(6));
    assert_eq!(Duration::max_value().saturating_mul(2), Duration::max_value());
}

#[test]
fn every_kind_has_a_camel_case_name() {
    let cases: Vec<(SearchError, &str)> = vec![
        (SearchError::Http { provider: "x", message: String::from("m") }, "http"),
        (SearchError::Transport { provider: "x", message: String::from("m") }, "transport"),
        (SearchError::RateLimited { provider: "x", retry_after: None }, "rateLimited"),
        (SearchError::AuthFailed { provider: "x", status: 401 }, "authFailed"),
        (SearchError::ServerError { provider: "x", status: 500 }, "serverError"),
        (SearchError::InvalidResponse { provider: "x", message: String::from("m") }, "invalidResponse"),
        (SearchError::ParseFailed { provider: "x", message: String::from("m") }, "parseFailed"),
        (SearchError::CaptchaDetected { provider: "x" }, "captchaDetected"),
        (SearchError::MissingApiKey { provider: "x", env_var: "X_KEY" }, "missingApiKey"),
        (SearchError::MissingSearxngUrl, "missingSearxngUrl"),
        (SearchError::ProviderUnavailable { name: String::from("y") }, "providerUnavailable"),
        (SearchError::Config { message: String::from("m") }, "config"),
    ];
    for (err, kind) in &cases {
        assert_eq!(err.kind(), *kind);
        let json: serde_json::Value = serde_json::from_str(&err.to_json()).unwrap();
        assert_eq!(json["kind"], *kind);
        assert_eq!(json["error"], err.message());
    }
    assert_eq!(cases[0].0.message(), "HTTP error from x: m");
    assert_eq!(cases[8].0.message(), "missing API key for x: set X_KEY");
    assert_eq!(cases[7].0.message(), "anti-bot challenge served by x");
}
