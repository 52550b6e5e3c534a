//! Search request parameters.

use vstd::prelude::*;

use crate::text::{is_blank, lemma_trim_empty_iff_blank, str_is_blank, trim_spec};

verus! {

/// Search result category.
#[derive(Debug, Clone, Copy, PartialEq, Eq, Structural, Hash)]
pub enum SearchSource {
    /// General web results.
    Web,
    /// News articles.
    News,
    /// Image results.
    Images,
}

/// Time-range filter applied by providers that support it.
#[derive(Debug, Clone, Copy, PartialEq, Eq, Structural, Hash)]
pub enum TimeRange {
    /// Past 24 hours.
    Day,
    /// Past 7 days.
    Week,
    /// Past 30 days.
    Month,
    /// Past 12 months.
    Year,
}

/// Safe-search filter level.
#[derive(Debug, Clone, Copy, PartialEq, Eq, Structural, Hash)]
pub enum SafeSearch {
    /// No filtering.
    Off,
    /// Moderate filtering (default).
    Moderate,
    /// Strict filtering.
    Strict,
}

/// Smallest accepted result limit.
pub const MIN_LIMIT: usize = 1;
/// Largest accepted result limit.
pub const MAX_LIMIT: usize = 100;
/// Result limit of a fresh query.
pub const DEFAULT_LIMIT: usize = 10;

/// `limit` clamped into `MIN_LIMIT..=MAX_LIMIT`.
pub open spec fn clamp_limit(limit: int) -> int {
    if limit < MIN_LIMIT {
        MIN_LIMIT as int
    } else if limit > MAX_LIMIT {
        MAX_LIMIT as int
    } else {
        limit
    }
}

/// Clamping lands in `MIN_LIMIT..=MAX_LIMIT`, keeps a limit already in
/// that range, is idempotent, and never reverses the order of two limits.
pub proof fn lemma_clamp_limit(a: int, b: int)
    ensures
        MIN_LIMIT <= clamp_limit(a) <= MAX_LIMIT,
        MIN_LIMIT <= a <= MAX_LIMIT ==> clamp_limit(a) == a,
        clamp_limit(clamp_limit(a)) == clamp_limit(a),
        a <= b ==> clamp_limit(a) <= clamp_limit(b),
{
}

/// Search query with provider-agnostic parameters.
///
/// Construct with [`SearchQuery::new`] and refine using the builder-style
/// setters. Unset fields fall back to provider defaults.
#[derive(Debug, Clone)]
pub struct SearchQuery {
    /// The search query string.
    pub query: String,
    /// Maximum number of results per source (default `10`, range `1..=100`).
    pub limit: usize,
    /// Result categories to request (default `[Web]`).
    pub sources: Vec<SearchSource>,
    /// Time-range filter.
    pub time_range: Option<TimeRange>,
    /// ISO 639-1 language code (e.g. `"en"`, `"zh"`).
    pub language: Option<String>,
    /// ISO 3166-1 alpha-2 country code (e.g. `"us"`, `"cn"`).
    pub country: Option<String>,
    /// Safe-search filter level.
    pub safesearch: SafeSearch,
}

impl SearchQuery {
    /// The query text holds at least one non-whitespace character.
    pub open spec fn valid(&self) -> bool {
        trim_spec(self.query@).len() > 0
    }

    /// The invariant every query built through the public constructors keeps:
    /// a limit inside `1..=100` and at least one source.
    pub open spec fn well_formed(&self) -> bool {
        &&& MIN_LIMIT <= self.limit <= MAX_LIMIT
        &&& self.sources@.len() > 0
    }

    /// Creates a new query with only the query text set and defaults for
    /// everything else.
    pub fn new(query: &str) -> (q: Self)
        ensures
            q.query@ == query@,
            q.limit == DEFAULT_LIMIT,
            q.sources@ == seq![SearchSource::Web],
            q.time_range is None,
            q.language is None,
            q.country is None,
            q.safesearch == SafeSearch::Moderate,
            q.well_formed(),
    {
        SearchQuery {
            query: query.to_owned(),
            limit: DEFAULT_LIMIT,
            sources: vec![SearchSource::Web],
            time_range: None,
            language: None,
            country: None,
            safesearch: SafeSearch::Moderate,
        }
    }

    /// Sets the maximum result count. Values are clamped to `1..=100`.
    pub fn with_limit(self, limit: usize) -> (q: Self)
        ensures
            q.limit == clamp_limit(limit as int),
            q == (SearchQuery { limit: q.limit, ..self }),
            self.sources@.len() > 0 ==> q.well_formed(),
    {
        let clamped = if limit == 0 {
            MIN_LIMIT
        } else if limit > MAX_LIMIT {
            MAX_LIMIT
        } else {
            limit
        };
        SearchQuery { limit: clamped, ..self }
    }

    /// Replaces the source list; an empty list falls back to `[Web]`.
    pub fn with_sources(self, sources: Vec<SearchSource>) -> (q: Self)
        ensures
            sources@.len() == 0 ==> q.sources@ == seq![SearchSource::Web],
            sources@.len() > 0 ==> q.sources@ == sources@,
            q == (SearchQuery { sources: q.sources, ..self }),
            MIN_LIMIT <= self.limit <= MAX_LIMIT ==> q.well_formed(),
    {
        if sources.len() == 0 {
            SearchQuery { sources: vec![SearchSource::Web], ..self }
        } else {
            SearchQuery { sources, ..self }
        }
    }

    /// Sets the time-range filter.
    pub fn with_time_range(self, time_range: TimeRange) -> (q: Self)
        ensures
            q == (SearchQuery { time_range: Some(time_range), ..self }),
    {
        SearchQuery { time_range: Some(time_range), ..self }
    }

    /// Sets the language filter.
    pub fn with_language(self, language: &str) -> (q: Self)
        ensures
            q.language matches Some(l) && l@ == language@,
            q == (SearchQuery { language: q.language, ..self }),
    {
        SearchQuery { language: Some(language.to_owned()), ..self }
    }

    /// Sets the country filter.
    pub fn with_country(self, country: &str) -> (q: Self)
        ensures
            q.country matches Some(c) && c@ == country@,
            q == (SearchQuery { country: q.country, ..self }),
    {
        SearchQuery { country: Some(country.to_owned()), ..self }
    }

    /// Sets the safe-search level.
    pub fn with_safesearch(self, safesearch: SafeSearch) -> (q: Self)
        ensures
            q == (SearchQuery { safesearch, ..self }),
    {
        SearchQuery { safesearch, ..self }
    }

    /// Returns `true` if the query has a non-empty search string
    /// (whitespace does not count).
    pub fn is_valid(&self) -> (b: bool)
        ensures
            b == self.valid(),
            b == !is_blank(self.query@),
    {
        proof {
            lemma_trim_empty_iff_blank(self.query@);
        }
        !str_is_blank(self.query.as_str())
    }
}

/// Canonical lowercase identifier of a source.
pub open spec fn source_name(s: SearchSource) -> Seq<char> {
    match s {
        SearchSource::Web => "web"@,
        SearchSource::News => "news"@,
        SearchSource::Images => "images"@,
    }
}

/// The names `web`, `news` and `images` each stand for exactly one source,
/// so distinct sources have distinct names.
pub proof fn lemma_source_names(a: SearchSource, b: SearchSource)
    ensures
        (source_name(a) == "web"@) == (a is Web),
        (source_name(a) == "news"@) == (a is News),
        (source_name(a) == "images"@) == (a is Images),
        source_name(a) == source_name(b) ==> a == b,
{
    reveal_strlit("web");
    reveal_strlit("news");
    reveal_strlit("images");
    assert("web"@.len() == 3 && "news"@.len() == 4 && "images"@.len() == 6);
}

/// SearXNG-native identifier of a time range.
pub open spec fn searxng_range_name(t: TimeRange) -> Seq<char> {
    match t {
        TimeRange::Day => "day"@,
        TimeRange::Week | TimeRange::Month => "month"@,
        TimeRange::Year => "year"@,
    }
}

/// SearXNG's range names: `day` for a day, `year` for a year, and `month`
/// for both a week and a month (SearXNG has no week range).
pub proof fn lemma_searxng_range_names(t: TimeRange)
    ensures
        (searxng_range_name(t) == "day"@) == (t is Day),
        (searxng_range_name(t) == "month"@) == (t is Week || t is Month),
        (searxng_range_name(t) == "year"@) == (t is Year),
{
    reveal_strlit("day");
    reveal_strlit("month");
    reveal_strlit("year");
    assert("day"@.len() == 3 && "month"@.len() == 5 && "year"@.len() == 4);
}

/// Firecrawl-style `tbs` identifier of a time range.
pub open spec fn tbs_name(t: TimeRange) -> Seq<char> {
    match t {
        TimeRange::Day => "qdr:d"@,
        TimeRange::Week => "qdr:w"@,
        TimeRange::Month => "qdr:m"@,
        TimeRange::Year => "qdr:y"@,
    }
}

/// The `tbs` names `qdr:d`, `qdr:w`, `qdr:m` and `qdr:y` each stand for
/// exactly one range, so distinct ranges have distinct names.
pub proof fn lemma_tbs_names(t: TimeRange, u: TimeRange)
    ensures
        (tbs_name(t) == "qdr:d"@) == (t is Day),
        (tbs_name(t) == "qdr:w"@) == (t is Week),
        (tbs_name(t) == "qdr:m"@) == (t is Month),
        (tbs_name(t) == "qdr:y"@) == (t is Year),
        tbs_name(t) == tbs_name(u) ==> t == u,
{
    reveal_strlit("qdr:d");
    reveal_strlit("qdr:w");
    reveal_strlit("qdr:m");
    reveal_strlit("qdr:y");
    assert("qdr:d"@[4] == 'd' && "qdr:w"@[4] == 'w' && "qdr:m"@[4] == 'm' && "qdr:y"@[4] == 'y');
}

/// Numeric safe-search value used by SearXNG and most other engines.
pub open spec fn safesearch_value(s: SafeSearch) -> u8 {
    match s {
        SafeSearch::Off => 0,
        SafeSearch::Moderate => 1,
        SafeSearch::Strict => 2,
    }
}

/// The numeric safe-search value grows with strictness: off is 0,
/// moderate 1, strict 2.
pub proof fn lemma_safesearch_values(a: SafeSearch, b: SafeSearch)
    ensures
        (safesearch_value(a) == 0) == (a is Off),
        (safesearch_value(a) == 1) == (a is Moderate),
        (safesearch_value(a) == 2) == (a is Strict),
        safesearch_value(a) == safesearch_value(b) ==> a == b,
{
}

impl SearchSource {
    /// Returns the canonical lowercase identifier.
    pub fn as_str(self) -> (s: &'static str)
        ensures
            s@ == source_name(self),
    {
        match self {
            SearchSource::Web => "web",
            SearchSource::News => "news",
            SearchSource::Images => "images",
        }
    }
}

impl TimeRange {
    /// Returns the SearXNG-native identifier.
    pub fn as_searxng(self) -> (s: &'static str)
        ensures
            s@ == searxng_range_name(self),
    {
        match self {
            TimeRange::Day => "day",
            TimeRange::Week | TimeRange::Month => "month",
            TimeRange::Year => "year",
        }
    }

    /// Returns the Firecrawl-style `tbs` identifier.
    pub fn as_tbs(self) -> (s: &'static str)
        ensures
            s@ == tbs_name(self),
    {
        match self {
            TimeRange::Day => "qdr:d",
            TimeRange::Week => "qdr:w",
            TimeRange::Month => "qdr:m",
            TimeRange::Year => "qdr:y",
        }
    }
}

impl SafeSearch {
    /// Returns the numeric value used by `SearXNG` and most other engines.
    pub fn as_u8(self) -> (v: u8)
        ensures
            v == safesearch_value(self),
    {
        match self {
            SafeSearch::Off => 0,
            SafeSearch::Moderate => 1,
            SafeSearch::Strict => 2,
        }
    }
}

impl Default for SafeSearch {
    /// `Moderate`.
    fn default() -> (s: Self)
        ensures
            s == SafeSearch::Moderate,
    {
        SafeSearch::Moderate
    }
}

} // verus!
