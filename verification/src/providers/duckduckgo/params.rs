//! Query-parameter encoding for the `DuckDuckGo` HTML endpoints.
//!
//! `DuckDuckGo` uses compact abbreviations (`kl`, `df`, `safe`) that do not
//! map one to one onto the portable [`SearchQuery`] fields; the encoders
//! here isolate those upstream quirks from the request pipeline.

use vstd::prelude::*;

use crate::encoding::{encode, encode_str, ByteRule};
use crate::query::{SafeSearch, SearchQuery, TimeRange};
use crate::text::{ascii_lower_spec, ascii_lowercase, push_str};

verus! {

/// The static, broadly compatible `Accept` header value.
pub fn accept_header() -> (s: &'static str)
    ensures
        s@ == "text/html,application/xhtml+xml,application/xml;q=0.9,*/*;q=0.8"@,
{
    "text/html,application/xhtml+xml,application/xml;q=0.9,*/*;q=0.8"
}

/// The locale-weighted `Accept-Language` value: `<code>,<code>;q=0.9,en;q=0.8`
/// for a non-empty query language, `en-US,en;q=0.9` otherwise.
pub open spec fn accept_language_spec(q: SearchQuery) -> Seq<char> {
    match q.language {
        Some(code) => if code@.len() > 0 {
            code@ + ","@ + code@ + ";q=0.9,en;q=0.8"@
        } else {
            "en-US,en;q=0.9"@
        },
        None => "en-US,en;q=0.9"@,
    }
}

/// Builds the locale-weighted `Accept-Language` header value.
pub fn accept_language(query: &SearchQuery) -> (s: String)
    ensures
        s@ == accept_language_spec(*query),
{
    match &query.language {
        Some(code) => {
            if code.as_str().is_empty() {
                "en-US,en;q=0.9".to_owned()
            } else {
                let mut s = String::new();
                push_str(&mut s, code.as_str());
                push_str(&mut s, ",");
                push_str(&mut s, code.as_str());
                push_str(&mut s, ";q=0.9,en;q=0.8");
                s
            }
        },
        None => "en-US,en;q=0.9".to_owned(),
    }
}

/// The `safe` form-field token of a safe-search level.
pub open spec fn safesearch_token_spec(safe: SafeSearch) -> Seq<char> {
    match safe {
        SafeSearch::Off => "-2"@,
        SafeSearch::Moderate => "-1"@,
        SafeSearch::Strict => "1"@,
    }
}

/// The `safe` tokens `-2`, `-1` and `1` each stand for exactly one level
/// (off, moderate, strict), so distinct levels send distinct tokens.
pub proof fn lemma_safesearch_tokens(a: SafeSearch, b: SafeSearch)
    ensures
        (safesearch_token_spec(a) == "-2"@) == (a is Off),
        (safesearch_token_spec(a) == "-1"@) == (a is Moderate),
        (safesearch_token_spec(a) == "1"@) == (a is Strict),
        safesearch_token_spec(a) == safesearch_token_spec(b) ==> a == b,
{
    reveal_strlit("-2");
    reveal_strlit("-1");
    reveal_strlit("1");
    assert("-2"@.len() == 2 && "-1"@.len() == 2 && "1"@.len() == 1);
    assert("-2"@[1] == '2' && "-1"@[1] == '1');
}

/// Maps [`SafeSearch`] onto the `safe` form-field token.
pub fn safesearch_token(safe: SafeSearch) -> (s: &'static str)
    ensures
        s@ == safesearch_token_spec(safe),
{
    match safe {
        SafeSearch::Off => "-2",
        SafeSearch::Moderate => "-1",
        SafeSearch::Strict => "1",
    }
}

/// The `df` form-field token of a time range.
pub open spec fn time_range_token_spec(range: TimeRange) -> Seq<char> {
    match range {
        TimeRange::Day => "d"@,
        TimeRange::Week => "w"@,
        TimeRange::Month => "m"@,
        TimeRange::Year => "y"@,
    }
}

/// The `df` tokens `d`, `w`, `m` and `y` each stand for exactly one range
/// (a day, a week, a month, a year), so distinct ranges send distinct
/// tokens.
pub proof fn lemma_time_range_tokens(t: TimeRange, u: TimeRange)
    ensures
        (time_range_token_spec(t) == "d"@) == (t is Day),
        (time_range_token_spec(t) == "w"@) == (t is Week),
        (time_range_token_spec(t) == "m"@) == (t is Month),
        (time_range_token_spec(t) == "y"@) == (t is Year),
        time_range_token_spec(t) == time_range_token_spec(u) ==> t == u,
{
    reveal_strlit("d");
    reveal_strlit("w");
    reveal_strlit("m");
    reveal_strlit("y");
    assert("d"@[0] == 'd' && "w"@[0] == 'w' && "m"@[0] == 'm' && "y"@[0] == 'y');
}

/// Maps [`TimeRange`] onto the `df` form-field token.
pub fn time_range_token(range: TimeRange) -> (s: &'static str)
    ensures
        s@ == time_range_token_spec(range),
{
    match range {
        TimeRange::Day => "d",
        TimeRange::Week => "w",
        TimeRange::Month => "m",
        TimeRange::Year => "y",
    }
}

/// The lowercased text of an optional field, empty when absent.
pub open spec fn lowered(s: Option<String>) -> Seq<char> {
    match s {
        Some(t) => ascii_lower_spec(t@),
        None => Seq::empty(),
    }
}

/// The `kl` (region-language) parameter: `wt-wt` when neither country nor
/// language is set; otherwise `<country>-<language>` in lowercase, with
/// `us` and `en` standing in for a missing part.
pub open spec fn region_code_spec(q: SearchQuery) -> Seq<char> {
    let country = lowered(q.country);
    let language = lowered(q.language);
    if country.len() == 0 && language.len() == 0 {
        "wt-wt"@
    } else {
        (if country.len() == 0 {
            "us"@
        } else {
            country
        }) + "-"@ + (if language.len() == 0 {
            "en"@
        } else {
            language
        })
    }
}

fn lowered_exec(s: &Option<String>) -> (r: String)
    ensures
        r@ == lowered(*s),
{
    match s {
        Some(t) => ascii_lowercase(t.as_str()),
        None => String::new(),
    }
}

/// Builds the `kl` (region-language) parameter `DuckDuckGo` expects.
pub fn region_code(query: &SearchQuery) -> (s: String)
    ensures
        s@ == region_code_spec(*query),
{
    let country = lowered_exec(&query.country);
    let language = lowered_exec(&query.language);
    if country.as_str().is_empty() && language.as_str().is_empty() {
        return "wt-wt".to_owned();
    }
    let mut s = String::new();
    if country.as_str().is_empty() {
        push_str(&mut s, "us");
    } else {
        push_str(&mut s, country.as_str());
    }
    push_str(&mut s, "-");
    if language.as_str().is_empty() {
        push_str(&mut s, "en");
    } else {
        push_str(&mut s, language.as_str());
    }
    s
}

/// Percent-encodes a form value: control bytes, non-ASCII bytes, space and
/// `"#<>&+=` become `%XX`.
pub fn encode_form(value: &str) -> (r: String)
    ensures
        r@ == encode_str(ByteRule::FormValue, value@),
{
    encode(value, ByteRule::FormValue)
}

} // verus!
