//! Error taxonomy shared by the client and every provider.

use vstd::prelude::*;

use crate::text::{decimal, json_escape, push_char, push_decimal, push_json_string, push_str};
use crate::time::Duration;

verus! {

/// Errors returned by [`SearchClient`](crate::client::SearchClient) and its
/// providers.
#[derive(Debug, Clone)]
pub enum SearchError {
    /// HTTP request failure reported without a finer classification.
    Http {
        /// Provider identifier (`"searxng"`, `"brave"`, `"tavily"`, …).
        provider: &'static str,
        /// Human-readable description.
        message: String,
    },
    /// Transport-layer failure (connection, TLS, timeout, unexpected status).
    Transport {
        /// Provider identifier.
        provider: &'static str,
        /// Human-readable description.
        message: String,
    },
    /// The provider answered `429 Too Many Requests`.
    RateLimited {
        /// Provider identifier.
        provider: &'static str,
        /// Parsed `Retry-After` hint, when the provider sent one.
        retry_after: Option<Duration>,
    },
    /// The provider rejected the credentials (`401` / `403`).
    AuthFailed {
        /// Provider identifier.
        provider: &'static str,
        /// HTTP status code.
        status: u16,
    },
    /// The provider answered with a `5xx` status.
    ServerError {
        /// Provider identifier.
        provider: &'static str,
        /// HTTP status code.
        status: u16,
    },
    /// Provider returned a malformed or unexpected payload.
    InvalidResponse {
        /// Provider identifier.
        provider: &'static str,
        /// Human-readable description.
        message: String,
    },
    /// The provider's page could not be parsed into results.
    ParseFailed {
        /// Provider identifier.
        provider: &'static str,
        /// Human-readable description.
        message: String,
    },
    /// The provider served an anti-bot challenge instead of results.
    CaptchaDetected {
        /// Provider identifier.
        provider: &'static str,
    },
    /// Required API key is missing.
    MissingApiKey {
        /// Provider identifier.
        provider: &'static str,
        /// Environment variable the user must set.
        env_var: &'static str,
    },
    /// `SearXNG` base URL was not configured.
    MissingSearxngUrl,
    /// Requested provider is not known.
    ProviderUnavailable {
        /// Requested provider name.
        name: String,
    },
    /// Invalid configuration or query parameters.
    Config {
        /// Human-readable description.
        message: String,
    },
}

/// The provider identifier carried by an error, if any.
pub open spec fn error_provider(e: SearchError) -> Option<Seq<char>> {
    match e {
        SearchError::Http { provider, .. }
        | SearchError::Transport { provider, .. }
        | SearchError::RateLimited { provider, .. }
        | SearchError::AuthFailed { provider, .. }
        | SearchError::ServerError { provider, .. }
        | SearchError::InvalidResponse { provider, .. }
        | SearchError::ParseFailed { provider, .. }
        | SearchError::CaptchaDetected { provider }
        | SearchError::MissingApiKey { provider, .. } => Some(provider@),
        SearchError::MissingSearxngUrl
        | SearchError::ProviderUnavailable { .. }
        | SearchError::Config { .. } => None,
    }
}

/// Errors worth retrying: rate limiting, server-side failures and anti-bot
/// challenges. Everything else (auth, validation, client errors) is final.
pub open spec fn retryable(e: SearchError) -> bool {
    e is RateLimited || e is ServerError || e is CaptchaDetected
}

/// Stable camelCase name of the error kind used in JSON output.
pub open spec fn kind_name(e: SearchError) -> Seq<char> {
    match e {
        SearchError::Http { .. } => "http"@,
        SearchError::Transport { .. } => "transport"@,
        SearchError::RateLimited { .. } => "rateLimited"@,
        SearchError::AuthFailed { .. } => "authFailed"@,
        SearchError::ServerError { .. } => "serverError"@,
        SearchError::InvalidResponse { .. } => "invalidResponse"@,
        SearchError::ParseFailed { .. } => "parseFailed"@,
        SearchError::CaptchaDetected { .. } => "captchaDetected"@,
        SearchError::MissingApiKey { .. } => "missingApiKey"@,
        SearchError::MissingSearxngUrl => "missingSearxngUrl"@,
        SearchError::ProviderUnavailable { .. } => "providerUnavailable"@,
        SearchError::Config { .. } => "config"@,
    }
}

/// HTTP status associated with an error, if any.
pub open spec fn error_status(e: SearchError) -> Option<u16> {
    match e {
        SearchError::RateLimited { .. } => Some(429u16),
        SearchError::AuthFailed { status, .. } | SearchError::ServerError { status, .. } => Some(
            status,
        ),
        _ => None,
    }
}

/// Human-readable message of an error.
pub open spec fn error_message(e: SearchError) -> Seq<char> {
    match e {
        SearchError::Http { provider, message } => "HTTP error from "@ + provider@ + ": "@
            + message@,
        SearchError::Transport { provider, message } => "transport error from "@ + provider@
            + ": "@ + message@,
        SearchError::RateLimited { provider, .. } => "rate limited by "@ + provider@,
        SearchError::AuthFailed { provider, status } => "authentication failed for "@
            + provider@ + " (HTTP "@ + decimal(status as nat) + ")"@,
        SearchError::ServerError { provider, status } => "server error from "@ + provider@
            + " (HTTP "@ + decimal(status as nat) + ")"@,
        SearchError::InvalidResponse { provider, message } => "invalid response from "@
            + provider@ + ": "@ + message@,
        SearchError::ParseFailed { provider, message } => "failed to parse response from "@
            + provider@ + ": "@ + message@,
        SearchError::CaptchaDetected { provider } => "anti-bot challenge served by "@
            + provider@,
        SearchError::MissingApiKey { provider, env_var } => "missing API key for "@ + provider@
            + ": set "@ + env_var@,
        SearchError::MissingSearxngUrl =>
            "missing SearXNG base URL: set H2M_SEARXNG_URL or pass --searxng-url"@,
        SearchError::ProviderUnavailable { name } => "provider '"@ + name@
            + "' is not available (missing feature flag)"@,
        SearchError::Config { message } => "configuration error: "@ + message@,
    }
}

/// `"key":` in JSON.
pub open spec fn json_key(k: Seq<char>) -> Seq<char> {
    seq!['"'] + k + seq!['"', ':']
}

/// `"…"` JSON string literal.
pub open spec fn json_str(s: Seq<char>) -> Seq<char> {
    seq!['"'] + json_escape(s) + seq!['"']
}

/// The JSON object an error is reported as: `error` (message), `kind`,
/// then `provider` and `status` when the error carries them.
pub open spec fn error_json(e: SearchError) -> Seq<char> {
    seq!['{'] + json_key("error"@) + json_str(error_message(e)) + seq![','] + json_key("kind"@)
        + json_str(kind_name(e)) + match error_provider(e) {
        Some(p) => seq![','] + json_key("provider"@) + json_str(p),
        None => Seq::empty(),
    } + match error_status(e) {
        Some(s) => seq![','] + json_key("status"@) + decimal(s as nat),
        None => Seq::empty(),
    } + seq!['}']
}

impl SearchError {
    /// Returns the provider identifier associated with this error, if any.
    pub fn provider(&self) -> (p: Option<&'static str>)
        ensures
            p matches Some(s) ==> error_provider(*self) == Some(s@),
            p is None ==> error_provider(*self) is None,
    {
        match self {
            SearchError::Http { provider, .. }
            | SearchError::Transport { provider, .. }
            | SearchError::RateLimited { provider, .. }
            | SearchError::AuthFailed { provider, .. }
            | SearchError::ServerError { provider, .. }
            | SearchError::InvalidResponse { provider, .. }
            | SearchError::ParseFailed { provider, .. }
            | SearchError::CaptchaDetected { provider }
            | SearchError::MissingApiKey { provider, .. } => Some(*provider),
            SearchError::MissingSearxngUrl
            | SearchError::ProviderUnavailable { .. }
            | SearchError::Config { .. } => None,
        }
    }

    /// Whether a retry policy should try the request again.
    pub fn is_retryable(&self) -> (b: bool)
        ensures
            b == retryable(*self),
    {
        match self {
            SearchError::RateLimited { .. }
            | SearchError::ServerError { .. }
            | SearchError::CaptchaDetected { .. } => true,
            _ => false,
        }
    }

    /// Stable camelCase name of the error kind.
    pub fn kind(&self) -> (k: &'static str)
        ensures
            k@ == kind_name(*self),
    {
        match self {
            SearchError::Http { .. } => "http",
            SearchError::Transport { .. } => "transport",
            SearchError::RateLimited { .. } => "rateLimited",
            SearchError::AuthFailed { .. } => "authFailed",
            SearchError::ServerError { .. } => "serverError",
            SearchError::InvalidResponse { .. } => "invalidResponse",
            SearchError::ParseFailed { .. } => "parseFailed",
            SearchError::CaptchaDetected { .. } => "captchaDetected",
            SearchError::MissingApiKey { .. } => "missingApiKey",
            SearchError::MissingSearxngUrl => "missingSearxngUrl",
            SearchError::ProviderUnavailable { .. } => "providerUnavailable",
            SearchError::Config { .. } => "config",
        }
    }

    /// HTTP status associated with this error, if any (`429` for rate
    /// limiting).
    pub fn status(&self) -> (s: Option<u16>)
        ensures
            s == error_status(*self),
    {
        match self {
            SearchError::RateLimited { .. } => Some(429),
            SearchError::AuthFailed { status, .. } | SearchError::ServerError { status, .. } => Some(
                *status,
            ),
            _ => None,
        }
    }

    /// Human-readable message (`Display`).
    pub fn message(&self) -> (m: String)
        ensures
            m@ == error_message(*self),
    {
        let mut m = String::new();
        match self {
            SearchError::Http { provider, message } => {
                push_str(&mut m, "HTTP error from ");
                push_str(&mut m, provider);
                push_str(&mut m, ": ");
                push_str(&mut m, message.as_str());
            },
            SearchError::Transport { provider, message } => {
                push_str(&mut m, "transport error from ");
                push_str(&mut m, provider);
                push_str(&mut m, ": ");
                push_str(&mut m, message.as_str());
            },
            SearchError::RateLimited { provider, .. } => {
                push_str(&mut m, "rate limited by ");
                push_str(&mut m, provider);
            },
            SearchError::AuthFailed { provider, status } => {
                push_str(&mut m, "authentication failed for ");
                push_str(&mut m, provider);
                push_str(&mut m, " (HTTP ");
                push_decimal(&mut m, *status as u64);
                push_str(&mut m, ")");
            },
            SearchError::ServerError { provider, status } => {
                push_str(&mut m, "server error from ");
                push_str(&mut m, provider);
                push_str(&mut m, " (HTTP ");
                push_decimal(&mut m, *status as u64);
                push_str(&mut m, ")");
            },
            SearchError::InvalidResponse { provider, message } => {
                push_str(&mut m, "invalid response from ");
                push_str(&mut m, provider);
                push_str(&mut m, ": ");
                push_str(&mut m, message.as_str());
            },
            SearchError::ParseFailed { provider, message } => {
                push_str(&mut m, "failed to parse response from ");
                push_str(&mut m, provider);
                push_str(&mut m, ": ");
                push_str(&mut m, message.as_str());
            },
            SearchError::CaptchaDetected { provider } => {
                push_str(&mut m, "anti-bot challenge served by ");
                push_str(&mut m, provider);
            },
            SearchError::MissingApiKey { provider, env_var } => {
                push_str(&mut m, "missing API key for ");
                push_str(&mut m, provider);
                push_str(&mut m, ": set ");
                push_str(&mut m, env_var);
            },
            SearchError::MissingSearxngUrl => {
                push_str(
                    &mut m,
                    "missing SearXNG base URL: set H2M_SEARXNG_URL or pass --searxng-url",
                );
            },
            SearchError::ProviderUnavailable { name } => {
                push_str(&mut m, "provider '");
                push_str(&mut m, name.as_str());
                push_str(&mut m, "' is not available (missing feature flag)");
            },
            SearchError::Config { message } => {
                push_str(&mut m, "configuration error: ");
                push_str(&mut m, message.as_str());
            },
        }
        assert(m@ =~= error_message(*self));
        m
    }

    /// The JSON object this error is reported as, e.g.
    /// `{"error":"rate limited by tavily","kind":"rateLimited","provider":"tavily","status":429}`.
    pub fn to_json(&self) -> (j: String)
        ensures
            j@ == error_json(*self),
    {
        let msg = self.message();
        let mut j = String::new();
        push_str(&mut j, "{\"error\":");
        push_json_string(&mut j, msg.as_str());
        push_str(&mut j, ",\"kind\":");
        push_json_string(&mut j, self.kind());
        let ghost head = j@;
        match self.provider() {
            Some(p) => {
                push_str(&mut j, ",\"provider\":");
                push_json_string(&mut j, p);
            },
            None => {},
        }
        let ghost mid = j@;
        match self.status() {
            Some(s) => {
                push_str(&mut j, ",\"status\":");
                push_decimal(&mut j, s as u64);
            },
            None => {},
        }
        push_char(&mut j, '}');
        proof {
            reveal_strlit("{\"error\":");
            reveal_strlit(",\"kind\":");
            reveal_strlit(",\"provider\":");
            reveal_strlit(",\"status\":");
            reveal_strlit("error");
            reveal_strlit("kind");
            reveal_strlit("provider");
            reveal_strlit("status");
            assert(head =~= seq!['{'] + json_key("error"@) + json_str(error_message(*self))
                + seq![','] + json_key("kind"@) + json_str(kind_name(*self)));
        }
        assert(j@ =~= error_json(*self));
        j
    }
}

} // verus!
