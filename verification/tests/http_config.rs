use h2m_search::http::{resolve_http, HttpConfig, DEFAULT_TIMEOUT_SECS, USER_AGENT};

#[test]
fn shared_client_preserves_identity_across_clones() {
    let cfg = HttpConfig::new().ok().unwrap();
    let cloned = cfg.clone();
    assert!(std::ptr::eq(cfg.client(), cloned.client()), "cloning HttpConfig must share the inner Arc");
}

#[test]
fn explicit_settings_are_kept() {
    let cfg = HttpConfig::with_client(reqwest::Client::new());
    let resolved = resolve_http(Some(cfg.clone())).ok().unwrap();
    assert!(std::ptr::eq(cfg.client(), resolved.client()));
    assert!(resolve_http(None).is_ok());
    assert_eq!(DEFAULT_TIMEOUT_SECS, 30);
    assert_eq!(USER_AGENT, "h2m-search/0.1.0");
}

#[test]
fn default_client_carries_the_user_agent_and_timeout() {
    let cfg = HttpConfig::new().ok().unwrap();
    let settings = cfg.settings().unwrap();
    assert_eq!(settings.user_agent, "h2m-search/0.1.0");
    assert_eq!(settings.timeout_secs, 30);
    let resolved = resolve_http(None).ok().unwrap();
    assert_eq!(resolved.settings().unwrap().timeout_secs, DEFAULT_TIMEOUT_SECS);
    assert!(HttpConfig::with_client(reqwest::Client::new()).settings().is_none());
}
