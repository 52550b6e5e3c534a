//! URL parsing and resolution, delegated to the `url` crate.
//!
//! The results of `url`'s WHATWG parser are named, not restated: callers
//! state their contracts over [`parsed_url`], [`joined_url`] and
//! [`url_components`].

use vstd::prelude::*;

verus! {

/// What `url::Url::parse` yields for a text: `Ok` with the serialised URL,
/// or `Err` with the parse error's message.
pub uninterp spec fn parsed_url(s: Seq<char>) -> Result<Seq<char>, Seq<char>>;

/// What `url::Url::join` yields when resolving `reference` against the URL
/// parsed from `base`: `Ok` with the serialised result, or `Err` with the
/// message of the error (of parsing `base`, or of resolving `reference`).
pub uninterp spec fn joined_url(base: Seq<char>, reference: Seq<char>) -> Result<
    Seq<char>,
    Seq<char>,
>;

/// What a parsed URL exposes, for a text that `url::Url::parse` accepts:
/// its host (`Url::host_str`), its path (`Url::path`) and its decoded query
/// pairs, in order (`Url::query_pairs`); `None` when the text does not parse.
pub uninterp spec fn url_components(s: Seq<char>) -> Option<
    (Option<Seq<char>>, Seq<char>, Seq<(Seq<char>, Seq<char>)>),
>;

/// The text view of a string result.
pub open spec fn result_text(r: Result<String, String>) -> Result<Seq<char>, Seq<char>> {
    match r {
        Ok(s) => Ok(s@),
        Err(e) => Err(e@),
    }
}

/// Parses an absolute URL (`url::Url::parse`) and returns its
/// serialisation, or the parse error's message.
#[verifier::external_body]
pub(crate) fn parse_url(s: &str) -> (r: Result<String, String>)
    ensures
        result_text(r) == parsed_url(s@),
{
    match url::Url::parse(s) {
        Ok(u) => Ok(u.to_string()),
        Err(e) => Err(e.to_string()),
    }
}

/// Resolves `reference` against `base` (`url::Url::join` on the parse of
/// `base`) and returns the serialised result, or an error message.
#[verifier::external_body]
pub(crate) fn join_url(base: &str, reference: &str) -> (r: Result<String, String>)
    ensures
        result_text(r) == joined_url(base@, reference@),
{
    match url::Url::parse(base) {
        Ok(u) => match u.join(reference) {
            Ok(j) => Ok(j.to_string()),
            Err(e) => Err(e.to_string()),
        },
        Err(e) => Err(e.to_string()),
    }
}

/// Host, path and decoded query pairs of a parsed URL.
#[derive(Debug, Clone)]
pub struct UrlParts {
    /// `Url::host_str`.
    pub host: Option<String>,
    /// `Url::path`.
    pub path: String,
    /// `Url::query_pairs`, decoded, in order.
    pub query: Vec<(String, String)>,
}

/// The text view of [`UrlParts`].
pub open spec fn parts_view(p: UrlParts) -> (
    Option<Seq<char>>,
    Seq<char>,
    Seq<(Seq<char>, Seq<char>)>,
) {
    (
        match p.host {
            Some(h) => Some(h@),
            None => None,
        },
        p.path@,
        p.query@.map_values(|q: (String, String)| (q.0@, q.1@)),
    )
}

/// Parses `s` and reads its host, path and decoded query pairs.
#[verifier::external_body]
pub(crate) fn url_parts(s: &str) -> (r: Option<UrlParts>)
    ensures
        match r {
            Some(p) => url_components(s@) == Some(parts_view(p)),
            None => url_components(s@) is None,
        },
{
    let u = url::Url::parse(s).ok()?;
    Some(UrlParts {
        host: u.host_str().map(str::to_owned),
        path: u.path().to_owned(),
        query: u.query_pairs().map(|(k, v)| (k.into_owned(), v.into_owned())).collect(),
    })
}

} // verus!
