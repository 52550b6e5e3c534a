//! The decisions of the `h2m` command line: its value enums, the search
//! options and how they become a [`SearchQuery`] and a [`SearchClient`].
//!
//! Argument parsing, output and the network live in the command-line front
//! end; everything it decides from the parsed arguments is here.

use vstd::prelude::*;

use crate::client::{built, BuilderSettings, ProviderEnv, SearchClient};
use crate::error::SearchError;
use crate::query::{clamp_limit, SafeSearch, SearchQuery, SearchSource, TimeRange};
use crate::text::{chars_of, push_char, starts_with, starts_with_spec, str_eq, trim, trim_spec};

verus! {

/// Search source category (command-line value).
#[derive(Debug, Clone, Copy, PartialEq, Eq, Structural)]
pub enum SourceArg {
    /// General web results.
    Web,
    /// News articles.
    News,
    /// Image results.
    Images,
}

/// Time-range filter (command-line value).
#[derive(Debug, Clone, Copy, PartialEq, Eq, Structural)]
pub enum TimeRangeArg {
    /// Past 24 hours.
    Day,
    /// Past 7 days.
    Week,
    /// Past 30 days.
    Month,
    /// Past 12 months.
    Year,
}

/// Safe-search level (command-line value).
#[derive(Debug, Clone, Copy, PartialEq, Eq, Structural)]
pub enum SafeSearchArg {
    /// No filtering.
    Off,
    /// Moderate filtering (default).
    Moderate,
    /// Strict filtering.
    Strict,
}

/// The source a command-line value selects.
pub open spec fn source_of(s: SourceArg) -> SearchSource {
    match s {
        SourceArg::Web => SearchSource::Web,
        SourceArg::News => SearchSource::News,
        SourceArg::Images => SearchSource::Images,
    }
}

/// The time range a command-line value selects.
pub open spec fn time_range_of(t: TimeRangeArg) -> TimeRange {
    match t {
        TimeRangeArg::Day => TimeRange::Day,
        TimeRangeArg::Week => TimeRange::Week,
        TimeRangeArg::Month => TimeRange::Month,
        TimeRangeArg::Year => TimeRange::Year,
    }
}

/// The safe-search level a command-line value selects.
pub open spec fn safesearch_of(s: SafeSearchArg) -> SafeSearch {
    match s {
        SafeSearchArg::Off => SafeSearch::Off,
        SafeSearchArg::Moderate => SafeSearch::Moderate,
        SafeSearchArg::Strict => SafeSearch::Strict,
    }
}

/// Each command-line source selects the source of the same name, so
/// distinct values select distinct sources.
pub proof fn lemma_source_of_same_name(a: SourceArg, b: SourceArg)
    ensures
        (source_of(a) is Web) == (a is Web),
        (source_of(a) is News) == (a is News),
        (source_of(a) is Images) == (a is Images),
        source_of(a) == source_of(b) ==> a == b,
{
}

/// Each command-line time range selects the time range of the same name,
/// so distinct values select distinct ranges.
pub proof fn lemma_time_range_of_same_name(a: TimeRangeArg, b: TimeRangeArg)
    ensures
        (time_range_of(a) is Day) == (a is Day),
        (time_range_of(a) is Week) == (a is Week),
        (time_range_of(a) is Month) == (a is Month),
        (time_range_of(a) is Year) == (a is Year),
        time_range_of(a) == time_range_of(b) ==> a == b,
{
}

/// Each command-line safe-search level selects the level of the same name,
/// so distinct values select distinct levels.
pub proof fn lemma_safesearch_of_same_name(a: SafeSearchArg, b: SafeSearchArg)
    ensures
        (safesearch_of(a) is Off) == (a is Off),
        (safesearch_of(a) is Moderate) == (a is Moderate),
        (safesearch_of(a) is Strict) == (a is Strict),
        safesearch_of(a) == safesearch_of(b) ==> a == b,
{
}

impl From<SourceArg> for SearchSource {
    /// The source the value selects.
    fn from(s: SourceArg) -> (r: SearchSource) {
        match s {
            SourceArg::Web => SearchSource::Web,
            SourceArg::News => SearchSource::News,
            SourceArg::Images => SearchSource::Images,
        }
    }
}

impl vstd::std_specs::convert::FromSpecImpl<SourceArg> for SearchSource {
    open spec fn obeys_from_spec() -> bool {
        true
    }

    open spec fn from_spec(s: SourceArg) -> SearchSource {
        source_of(s)
    }
}

impl From<TimeRangeArg> for TimeRange {
    /// The time range the value selects.
    fn from(t: TimeRangeArg) -> (r: TimeRange) {
        match t {
            TimeRangeArg::Day => TimeRange::Day,
            TimeRangeArg::Week => TimeRange::Week,
            TimeRangeArg::Month => TimeRange::Month,
            TimeRangeArg::Year => TimeRange::Year,
        }
    }
}

impl vstd::std_specs::convert::FromSpecImpl<TimeRangeArg> for TimeRange {
    open spec fn obeys_from_spec() -> bool {
        true
    }

    open spec fn from_spec(t: TimeRangeArg) -> TimeRange {
        time_range_of(t)
    }
}

impl From<SafeSearchArg> for SafeSearch {
    /// The safe-search level the value selects.
    fn from(s: SafeSearchArg) -> (r: SafeSearch) {
        match s {
            SafeSearchArg::Off => SafeSearch::Off,
            SafeSearchArg::Moderate => SafeSearch::Moderate,
            SafeSearchArg::Strict => SafeSearch::Strict,
        }
    }
}

impl vstd::std_specs::convert::FromSpecImpl<SafeSearchArg> for SafeSearch {
    open spec fn obeys_from_spec() -> bool {
        true
    }

    open spec fn from_spec(s: SafeSearchArg) -> SafeSearch {
        safesearch_of(s)
    }
}

/// Heading rendering style.
#[derive(Debug, Clone, Copy, PartialEq, Eq, Structural)]
pub enum HeadingStyle {
    /// ATX-style (`# Heading`).
    Atx,
    /// Setext-style (underline with `===` or `---`).
    Setext,
}

/// Bullet character for unordered lists.
#[derive(Debug, Clone, Copy, PartialEq, Eq, Structural)]
pub enum BulletStyle {
    /// Dash: `-`.
    Dash,
    /// Plus: `+`.
    Plus,
    /// Asterisk: `*`.
    Star,
}

/// Code fence character style.
#[derive(Debug, Clone, Copy, PartialEq, Eq, Structural)]
pub enum FenceStyle {
    /// Triple backtick fences.
    Backtick,
    /// Triple tilde fences.
    Tilde,
}

/// Emphasis delimiter style.
#[derive(Debug, Clone, Copy, PartialEq, Eq, Structural)]
pub enum EmStyle {
    /// Asterisk: `*text*`.
    Star,
    /// Underscore: `_text_`.
    Underscore,
}

/// Strong emphasis delimiter style.
#[derive(Debug, Clone, Copy, PartialEq, Eq, Structural)]
pub enum StrongStyle {
    /// Double asterisks: `**bold**`.
    Stars,
    /// Double underscores: `__bold__`.
    Underscores,
}

/// Horizontal rule style.
#[derive(Debug, Clone, Copy, PartialEq, Eq, Structural)]
pub enum HrStyle {
    /// Three dashes: `---`.
    Dashes,
    /// Three asterisks: `***`.
    Stars,
    /// Three underscores: `___`.
    Underscores,
}

/// Link rendering style.
#[derive(Debug, Clone, Copy, PartialEq, Eq, Structural)]
pub enum LinkStyleArg {
    /// Inline links: `[text](url)`.
    Inlined,
    /// Reference-style: `[text][id]` with footer definitions.
    Referenced,
}

/// Reference link identifier style.
#[derive(Debug, Clone, Copy, PartialEq, Eq, Structural)]
pub enum LinkRefArg {
    /// Full reference: `[text][1]`.
    Full,
    /// Collapsed: `[text][]`.
    Collapsed,
    /// Shortcut: `[text]`.
    Shortcut,
}

/// The options of `h2m search` that decide the query and the client.
#[derive(Debug, Clone)]
pub struct SearchOptions {
    /// The search query.
    pub query: String,
    /// Search provider name.
    pub provider: String,
    /// Maximum number of results (clamped to `1..=100`).
    pub limit: usize,
    /// Result sources to request.
    pub sources: Vec<SourceArg>,
    /// Time-range filter.
    pub time_range: Option<TimeRangeArg>,
    /// Country code (e.g. `us`, `cn`).
    pub country: Option<String>,
    /// Language code (e.g. `en`, `zh`).
    pub language: Option<String>,
    /// Safe-search filter level.
    pub safesearch: SafeSearchArg,
    /// `SearXNG` base URL (overrides the environment).
    pub searxng_url: Option<String>,
}

/// The query the options describe: the text, the clamped limit, the
/// selected sources (web when none), the safe-search level, and the time
/// range, language and country when given.
pub open spec fn query_for(o: SearchOptions, q: SearchQuery) -> bool {
    &&& q.query@ == o.query@
    &&& q.limit == clamp_limit(o.limit as int)
    &&& q.sources@ == (if o.sources@.len() == 0 {
        seq![SearchSource::Web]
    } else {
        o.sources@.map_values(|s: SourceArg| source_of(s))
    })
    &&& q.safesearch == safesearch_of(o.safesearch)
    &&& q.time_range == (match o.time_range {
        Some(t) => Some(time_range_of(t)),
        None => None,
    })
    &&& (match o.language {
        Some(l) => q.language matches Some(x) && x@ == l@,
        None => q.language is None,
    })
    &&& (match o.country {
        Some(c) => q.country matches Some(x) && x@ == c@,
        None => q.country is None,
    })
}

/// The client settings the options give: the provider name and, when set,
/// the `SearXNG` URL.
pub open spec fn settings_for(o: SearchOptions) -> BuilderSettings {
    BuilderSettings {
        provider: Some(o.provider@),
        searxng_url: match o.searxng_url {
            Some(u) => Some(u@),
            None => None,
        },
        ..SearchClient::builder_spec()
    }
}

fn sources_of(args: &Vec<SourceArg>) -> (v: Vec<SearchSource>)
    ensures
        v@ == args@.map_values(|s: SourceArg| source_of(s)),
{
    let mut v: Vec<SearchSource> = Vec::new();
    let mut i: usize = 0;
    while i < args.len()
        invariant
            0 <= i <= args@.len(),
            v@ == args@.take(i as int).map_values(|s: SourceArg| source_of(s)),
        decreases args@.len() - i,
    {
        v.push(SearchSource::from(args[i]));
        assert(args@.take(i + 1).map_values(|s: SourceArg| source_of(s)) =~= args@.take(
            i as int,
        ).map_values(|s: SourceArg| source_of(s)).push(source_of(args@[i as int])));
        i += 1;
    }
    assert(args@.take(args@.len() as int) =~= args@);
    v
}

impl SearchOptions {
    /// The query these options describe.
    pub fn build_query(&self) -> (q: SearchQuery)
        ensures
            query_for(*self, q),
            q.well_formed(),
    {
        let sources = sources_of(&self.sources);
        let mut q = SearchQuery::new(self.query.as_str()).with_limit(self.limit).with_sources(
            sources,
        ).with_safesearch(SafeSearch::from(self.safesearch));
        match self.time_range {
            Some(tr) => q = q.with_time_range(TimeRange::from(tr)),
            None => {},
        }
        match &self.language {
            Some(l) => q = q.with_language(l.as_str()),
            None => {},
        }
        match &self.country {
            Some(c) => q = q.with_country(c.as_str()),
            None => {},
        }
        q
    }

    /// The client these options select, with the environment filling in
    /// what they leave unset.
    ///
    /// # Errors
    ///
    /// As [`SearchClientBuilder::build`](crate::client::SearchClientBuilder::build).
    pub fn build_client(&self, env: &ProviderEnv) -> (r: Result<SearchClient, SearchError>)
        ensures
            built(r, settings_for(*self), *env),
    {
        let mut builder = SearchClient::builder().provider(self.provider.as_str());
        match &self.searxng_url {
            Some(url) => builder = builder.searxng_url(url.as_str()),
            None => {},
        }
        builder.build(env)
    }
}

/// Whether a failed search reports its error as JSON: in `--json` mode and
/// in `--scrape` mode (both stream machine-readable output).
pub fn wants_json_error(json: bool, scrape: bool) -> (b: bool)
    ensures
        b == (json || scrape),
{
    json || scrape
}

/// The text of a list of strings.
pub open spec fn texts(v: Seq<String>) -> Seq<Seq<char>> {
    v.map_values(|x: String| x@)
}

/// The command-line inputs kept: every one but `-` (which stands for
/// standard input), in order.
pub open spec fn args_kept(v: Seq<Seq<char>>) -> Seq<Seq<char>>
    decreases v.len(),
{
    if v.len() == 0 {
        Seq::empty()
    } else if v.last() == "-"@ {
        args_kept(v.drop_last())
    } else {
        args_kept(v.drop_last()).push(v.last())
    }
}

/// A text cut at every `\n` (the last piece may be empty).
pub open spec fn split_lines(s: Seq<char>) -> Seq<Seq<char>>
    decreases s.len(),
{
    if s.len() == 0 {
        seq![Seq::empty()]
    } else {
        let p = split_lines(s.drop_last());
        if s.last() == '\n' {
            p.push(Seq::empty())
        } else {
            p.update(p.len() - 1, p.last().push(s.last()))
        }
    }
}

/// A line of a URL file that names a URL: not blank, and not a `#`
/// comment once trimmed.
pub open spec fn names_url(l: Seq<char>) -> bool {
    trim_spec(l).len() > 0 && trim_spec(l)[0] != '#'
}

/// The URLs of a URL file's lines: those lines that name one, trimmed, in
/// order.
pub open spec fn url_lines(ls: Seq<Seq<char>>) -> Seq<Seq<char>>
    decreases ls.len(),
{
    if ls.len() == 0 {
        Seq::empty()
    } else if names_url(ls.last()) {
        url_lines(ls.drop_last()).push(trim_spec(ls.last()))
    } else {
        url_lines(ls.drop_last())
    }
}

/// The inputs of a conversion: the command-line inputs but `-`, then the
/// URLs listed in the URL file (its content, when one was given).
pub open spec fn inputs_of(inputs: Seq<Seq<char>>, url_file: Option<Seq<char>>) -> Seq<Seq<char>> {
    args_kept(inputs) + match url_file {
        Some(c) => url_lines(split_lines(c)),
        None => Seq::empty(),
    }
}

proof fn lemma_split_lines_nonempty(s: Seq<char>)
    ensures
        split_lines(s).len() >= 1,
    decreases s.len(),
{
    if s.len() > 0 {
        lemma_split_lines_nonempty(s.drop_last());
    }
}

fn push_url_line(out: &mut Vec<String>, line: &str)
    ensures
        texts(final(out)@) == if names_url(line@) {
            texts(old(out)@).push(trim_spec(line@))
        } else {
            texts(old(out)@)
        },
{
    let t = trim(line);
    proof {
        reveal_strlit("#");
        assert("#"@ =~= seq!['#']);
        if t@.len() > 0 {
            assert(t@.subrange(0, 1) =~= seq![t@[0]]);
            if t@[0] == '#' {
                assert(t@.subrange(0, 1) =~= "#"@);
            }
            if starts_with_spec(t@, "#"@) {
                assert(t@.subrange(0, 1)[0] == "#"@[0]);
            }
            assert(starts_with_spec(t@, "#"@) == (t@[0] == '#'));
        }
    }
    let b = starts_with(t.as_str(), "#");
    if !t.as_str().is_empty() && !b {
        out.push(t);
        assert(texts(out@) =~= texts(old(out)@).push(trim_spec(line@)));
    } else {
        assert(texts(out@) =~= texts(old(out)@));
    }
}

/// The inputs of a conversion: the given inputs except `-`, then the lines
/// of the URL file's content (`url_file`, read by the caller) that are not
/// blank and not `#` comments, trimmed, in order.
pub fn collect_inputs(inputs: &Vec<String>, url_file: Option<&str>) -> (v: Vec<String>)
    ensures
        texts(v@) == inputs_of(
            texts(inputs@),
            match url_file {
                Some(c) => Some(c@),
                None => None,
            },
        ),
{
    let ghost iv = texts(inputs@);
    let mut out: Vec<String> = Vec::new();
    let mut i: usize = 0;
    proof {
        reveal_strlit("-");
    }
    while i < inputs.len()
        invariant
            iv == texts(inputs@),
            0 <= i <= inputs@.len(),
            texts(out@) == args_kept(iv.take(i as int)),
        decreases inputs@.len() - i,
    {
        proof {
            assert(iv.take(i + 1).drop_last() =~= iv.take(i as int));
            assert(iv.take(i + 1).last() == inputs@[i as int]@);
        }
        if !str_eq(inputs[i].as_str(), "-") {
            out.push(inputs[i].clone());
            assert(texts(out@) =~= args_kept(iv.take(i as int)).push(inputs@[i as int]@));
        }
        i += 1;
    }
    assert(iv.take(inputs@.len() as int) =~= iv);
    let ghost args = texts(out@);
    match url_file {
        None => {
            assert(args + Seq::<Seq<char>>::empty() =~= args);
        },
        Some(content) => {
            let v = chars_of(content);
            let mut line = String::new();
            let mut k: usize = 0;
            assert(v@.take(0) =~= Seq::<char>::empty());
            while k < v.len()
                invariant
                    v@ == content@,
                    0 <= k <= v@.len(),
                    split_lines(v@.take(k as int)).len() >= 1,
                    line@ == split_lines(v@.take(k as int)).last(),
                    texts(out@) == args + url_lines(split_lines(v@.take(k as int)).drop_last()),
                decreases v@.len() - k,
            {
                let ghost pre = v@.take(k as int);
                let ghost p = split_lines(pre);
                proof {
                    assert(v@.take(k + 1).drop_last() =~= pre);
                    assert(v@.take(k + 1).last() == v@[k as int]);
                    lemma_split_lines_nonempty(pre);
                }
                let c = v[k];
                if c == '\n' {
                    push_url_line(&mut out, line.as_str());
                    proof {
                        let np = p.push(Seq::empty());
                        assert(np.drop_last() =~= p);
                        assert(p =~= p.drop_last().push(p.last()));
                        assert(url_lines(p) == (if names_url(p.last()) {
                            url_lines(p.drop_last()).push(trim_spec(p.last()))
                        } else {
                            url_lines(p.drop_last())
                        }));
                        assert(texts(out@) =~= args + url_lines(np.drop_last()));
                    }
                    line = String::new();
                } else {
                    push_char(&mut line, c);
                    proof {
                        let np = p.update(p.len() - 1, p.last().push(c));
                        assert(np.drop_last() =~= p.drop_last());
                    }
                }
                k += 1;
            }
            assert(v@.take(v@.len() as int) =~= v@);
            let ghost p = split_lines(content@);
            push_url_line(&mut out, line.as_str());
            proof {
                assert(p =~= p.drop_last().push(p.last()));
            }
        },
    }
    out
}

} // verus!
