//! CAPTCHA / anti-bot detection for the `DuckDuckGo` HTML endpoints.
//!
//! `DuckDuckGo` has no standardised "you hit the limit" response: it swaps
//! the results page for an anomaly-challenge stub. This module recognises
//! those stubs and tells which errors the lite endpoint can recover from.

use vstd::prelude::*;
use vstd::string::StringSliceAdditionalSpecFns;
use vstd::utf8::encode_utf8;

use crate::error::SearchError;
use crate::text::{contains, contains_spec};

verus! {

/// Minimum body size, in bytes, of a legitimate HTML response. Anything
/// smaller is almost certainly an error or challenge page.
pub const MIN_HTML_BODY_BYTES: usize = 512;

/// A token whose presence in a response body signals an anti-bot page:
/// `anomaly-modal`, `challenge-platform`, `DDG.anomalyDetection`,
/// `If this error persists` or `/assets/common/error.js`.
pub open spec fn has_captcha_marker(body: Seq<char>) -> bool {
    ||| contains_spec(body, "anomaly-modal"@)
    ||| contains_spec(body, "challenge-platform"@)
    ||| contains_spec(body, "DDG.anomalyDetection"@)
    ||| contains_spec(body, "If this error persists"@)
    ||| contains_spec(body, "/assets/common/error.js"@)
}

/// Size of a text in UTF-8 bytes.
pub open spec fn byte_len(s: Seq<char>) -> nat {
    encode_utf8(s).len()
}

/// A body that is too small to be a results page, or carries a marker.
pub open spec fn captcha_page(body: Seq<char>) -> bool {
    byte_len(body) < MIN_HTML_BODY_BYTES || has_captcha_marker(body)
}

/// Returns `true` if `body` looks like a CAPTCHA / challenge page.
pub fn looks_like_captcha(body: &str) -> (b: bool)
    ensures
        b == captcha_page(body@),
{
    assert(body.spec_bytes() == encode_utf8(body@));
    if body.as_bytes().len() < MIN_HTML_BODY_BYTES {
        return true;
    }
    contains(body, "anomaly-modal") || contains(body, "challenge-platform") || contains(
        body,
        "DDG.anomalyDetection",
    ) || contains(body, "If this error persists") || contains(body, "/assets/common/error.js")
}

/// The errors the lite endpoint may recover from: a challenge page, a
/// page whose layout was not recognised, rate limiting.
pub open spec fn recoverable(err: SearchError) -> bool {
    err is CaptchaDetected || err is ParseFailed || err is RateLimited
}

/// Returns `true` when the error is recoverable by falling back to the
/// lite endpoint.
pub fn is_recoverable_via_lite(err: &SearchError) -> (b: bool)
    ensures
        b == recoverable(*err),
{
    match err {
        SearchError::CaptchaDetected { .. } => true,
        SearchError::ParseFailed { .. } => true,
        SearchError::RateLimited { .. } => true,
        _ => false,
    }
}

} // verus!
