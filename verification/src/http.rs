//! Shared HTTP client configuration.
//!
//! Every provider gets the same `reqwest::Client` by default, so one
//! connection pool serves the whole crate. Callers may bring their own
//! client via [`HttpConfig::with_client`] when they need custom middleware,
//! proxies, or a pool shared with the host application.

use std::sync::Arc;

use vstd::prelude::*;

use crate::error::SearchError;
use crate::text::push_str;

verus! {

/// The HTTP client of the `reqwest` crate.
#[verifier::external_type_specification]
#[verifier::external_body]
pub struct ExReqwestClient(reqwest::Client);

/// The error reported when the HTTP client cannot be built: a
/// configuration error whose message starts with
/// `failed to build HTTP client: `.
pub open spec fn client_build_error(e: SearchError) -> bool {
    e matches SearchError::Config { message } && message@.len() >= 29 && message@.subrange(0, 29)
        == "failed to build HTTP client: "@
}

/// Default per-request timeout applied to every provider, in seconds.
pub const DEFAULT_TIMEOUT_SECS: u64 = 30;

/// User agent sent with every request.
pub const USER_AGENT: &'static str = "h2m-search/0.1.0";

/// Shared HTTP configuration used by every provider.
///
/// The client is reference-counted so several providers in the same process
/// share one TLS / connection pool; cloning shares it too.
#[derive(Debug, Clone)]
pub struct HttpConfig {
    client: Arc<reqwest::Client>,
    settings: Option<ClientSettings>,
}

/// The settings a client was built with.
#[derive(Debug, Clone)]
pub struct ClientSettings {
    /// The `User-Agent` sent with every request.
    pub user_agent: String,
    /// The per-request timeout, in seconds.
    pub timeout_secs: u64,
}

/// The text view of optional settings.
pub open spec fn settings_view(s: Option<&ClientSettings>) -> Option<(Seq<char>, u64)> {
    match s {
        Some(x) => Some((x.user_agent@, x.timeout_secs)),
        None => None,
    }
}

/// Builds a `reqwest::Client` with the given user agent
/// (`ClientBuilder::user_agent`) and per-request timeout
/// (`ClientBuilder::timeout`) and returns it with those settings; on
/// failure (`ClientBuilder::build`), the builder error's message. Nothing
/// else is promised of the client, and whether the build succeeds depends
/// on the machine (its TLS backend).
#[verifier::external_body]
fn build_client(user_agent: &str, timeout_secs: u64) -> (r: Result<(reqwest::Client, ClientSettings), String>)
    ensures
        r matches Ok(p) ==> p.1.user_agent@ == user_agent@ && p.1.timeout_secs == timeout_secs,
{
    let client = reqwest::Client::builder()
        .user_agent(user_agent)
        .timeout(std::time::Duration::from_secs(timeout_secs))
        .build()
        .map_err(|e| e.to_string())?;
    Ok((client, ClientSettings { user_agent: user_agent.to_owned(), timeout_secs }))
}

impl HttpConfig {
    /// The client held.
    pub closed spec fn inner(&self) -> reqwest::Client {
        *self.client
    }

    /// The user agent and timeout the client was built with, when this
    /// library built it (`None` for a client brought by the caller).
    pub closed spec fn spec_settings(&self) -> Option<(Seq<char>, u64)> {
        match self.settings {
            Some(x) => Some((x.user_agent@, x.timeout_secs)),
            None => None,
        }
    }

    /// Builds the default client (30 s timeout, crate user agent, system
    /// proxy).
    ///
    /// # Errors
    ///
    /// Returns [`SearchError::Config`] ("failed to build HTTP client: …")
    /// if the underlying `reqwest` builder fails.
    pub fn new() -> (r: Result<Self, SearchError>)
        ensures
            r matches Ok(c) ==> c.spec_settings() == Some((USER_AGENT@, DEFAULT_TIMEOUT_SECS)),
            r matches Err(e) ==> client_build_error(e),
    {
        match build_client(USER_AGENT, DEFAULT_TIMEOUT_SECS) {
            Ok((client, settings)) => Ok(HttpConfig { client: Arc::new(client), settings: Some(settings) }),
            Err(e) => {
                let mut message = String::new();
                push_str(&mut message, "failed to build HTTP client: ");
                push_str(&mut message, e.as_str());
                proof {
                    reveal_strlit("failed to build HTTP client: ");
                    assert(message@.subrange(0, 29) =~= "failed to build HTTP client: "@);
                }
                Err(SearchError::Config { message })
            },
        }
    }

    /// Wraps an existing client; the caller owns connection-pool lifecycle.
    pub fn with_client(client: reqwest::Client) -> (c: Self)
        ensures
            c.inner() == client,
            c.spec_settings() is None,
    {
        HttpConfig { client: Arc::new(client), settings: None }
    }

    /// The user agent and timeout the client was built with, when this
    /// library built it.
    pub fn settings(&self) -> (s: Option<&ClientSettings>)
        ensures
            settings_view(s) == self.spec_settings(),
    {
        match &self.settings {
            Some(x) => Some(x),
            None => None,
        }
    }

    /// Shared client handle.
    pub fn client(&self) -> (c: &reqwest::Client)
        ensures
            *c == self.inner(),
    {
        &self.client
    }
}

/// The configured HTTP settings, or freshly built defaults.
pub fn resolve_http(http: Option<HttpConfig>) -> (r: Result<HttpConfig, SearchError>)
    ensures
        http matches Some(h) ==> r == Ok::<HttpConfig, SearchError>(h),
        r matches Err(e) ==> http is None && client_build_error(e),
        http is None ==> (r matches Ok(c) ==> c.spec_settings() == Some(
            (USER_AGENT@, DEFAULT_TIMEOUT_SECS),
        )),
{
    match http {
        Some(h) => Ok(h),
        None => HttpConfig::new(),
    }
}

} // verus!
