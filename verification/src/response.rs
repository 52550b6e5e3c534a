//! Search response types.
//!
//! JSON output (produced by the command-line front end) uses camelCase
//! field names and omits absent optional fields.

use vstd::prelude::*;

use crate::query::SearchSource;

verus! {

/// A single search result.
///
/// Optional fields are populated on a best-effort basis; providers that do
/// not expose a piece of data leave it `None`.
#[derive(Debug, Clone)]
pub struct SearchHit {
    /// Result title.
    pub title: String,
    /// Canonical URL.
    pub url: String,
    /// Short description or snippet.
    pub description: Option<String>,
    /// Publication timestamp as returned by the provider.
    pub published_at: Option<String>,
    /// Upstream engine identifier (`SearXNG` exposes this; others omit it).
    pub engine: Option<String>,
    /// Relevance score in `[0, 1]` when the provider supplies one, kept as
    /// the IEEE-754 bit pattern of the `f64` the provider sent (this crate
    /// never computes with it; `f64::from_bits` recovers the number).
    pub score: Option<u64>,
}

impl SearchHit {
    /// Creates a bare hit with only the required fields.
    pub fn new(title: &str, url: &str) -> (h: Self)
        ensures
            h.title@ == title@,
            h.url@ == url@,
            h.description is None,
            h.published_at is None,
            h.engine is None,
            h.score is None,
    {
        SearchHit {
            title: title.to_owned(),
            url: url.to_owned(),
            description: None,
            published_at: None,
            engine: None,
            score: None,
        }
    }

    /// Attaches a description snippet.
    pub fn with_description(self, description: &str) -> (h: Self)
        ensures
            h.description matches Some(d) && d@ == description@,
            h == (SearchHit { description: h.description, ..self }),
    {
        SearchHit { description: Some(description.to_owned()), ..self }
    }

    /// Attaches a publication timestamp (provider-supplied, untyped).
    pub fn with_published_at(self, published_at: &str) -> (h: Self)
        ensures
            h.published_at matches Some(p) && p@ == published_at@,
            h == (SearchHit { published_at: h.published_at, ..self }),
    {
        SearchHit { published_at: Some(published_at.to_owned()), ..self }
    }

    /// Attaches the upstream engine identifier.
    pub fn with_engine(self, engine: &str) -> (h: Self)
        ensures
            h.engine matches Some(e) && e@ == engine@,
            h == (SearchHit { engine: h.engine, ..self }),
    {
        SearchHit { engine: Some(engine.to_owned()), ..self }
    }

    /// Attaches a relevance score, given as the bit pattern of an `f64`.
    pub fn with_score(self, score_bits: u64) -> (h: Self)
        ensures
            h == (SearchHit { score: Some(score_bits), ..self }),
    {
        SearchHit { score: Some(score_bits), ..self }
    }
}

/// Complete search response grouped by source.
#[derive(Debug, Clone)]
pub struct SearchResponse {
    /// Echoed query string.
    pub query: String,
    /// Provider identifier that served the request.
    pub provider: &'static str,
    /// Optional LLM-generated answer (Tavily `include_answer` feature).
    pub answer: Option<String>,
    /// Web results.
    pub web: Vec<SearchHit>,
    /// News results.
    pub news: Vec<SearchHit>,
    /// Image results.
    pub images: Vec<SearchHit>,
    /// Elapsed wall time in milliseconds.
    pub elapsed_ms: u64,
}

/// Hits of every source, web first, then news, then images.
pub open spec fn all_hits_spec(r: SearchResponse) -> Seq<SearchHit> {
    r.web@ + r.news@ + r.images@
}

/// Number of hits across all sources.
pub open spec fn total_spec(r: SearchResponse) -> nat {
    r.web@.len() + r.news@.len() + r.images@.len()
}

/// The hits of one source.
pub open spec fn section(r: SearchResponse, source: SearchSource) -> Seq<SearchHit> {
    match source {
        SearchSource::Web => r.web@,
        SearchSource::News => r.news@,
        SearchSource::Images => r.images@,
    }
}

/// The web, news and image sections of a response.
pub open spec fn sections(r: SearchResponse) -> Sections {
    (r.web@, r.news@, r.images@)
}

/// Web, news and image hits.
pub type Sections = (Seq<SearchHit>, Seq<SearchHit>, Seq<SearchHit>);

/// `t` with `hit` appended to the section of `source`.
pub open spec fn push_to(t: Sections, source: SearchSource, hit: SearchHit) -> Sections {
    match source {
        SearchSource::Web => (t.0.push(hit), t.1, t.2),
        SearchSource::News => (t.0, t.1.push(hit), t.2),
        SearchSource::Images => (t.0, t.1, t.2.push(hit)),
    }
}

/// `t` with every `(source, hit)` appended in order.
pub open spec fn push_all(t: Sections, items: Seq<(SearchSource, SearchHit)>) -> Sections
    decreases items.len(),
{
    if items.len() == 0 {
        t
    } else {
        push_to(push_all(t, items.drop_last()), items.last().0, items.last().1)
    }
}

/// The section of `source` in `t`.
pub open spec fn section_of(t: Sections, source: SearchSource) -> Seq<SearchHit> {
    match source {
        SearchSource::Web => t.0,
        SearchSource::News => t.1,
        SearchSource::Images => t.2,
    }
}

/// Every section holds at most `limit` hits.
pub open spec fn within(t: Sections, limit: nat) -> bool {
    t.0.len() <= limit && t.1.len() <= limit && t.2.len() <= limit
}

/// `t` with every `(source, hit)` appended in order while the section of
/// its source holds fewer than `limit` hits, and dropped once it is full.
pub open spec fn push_capped(t: Sections, items: Seq<(SearchSource, SearchHit)>, limit: nat) -> Sections
    decreases items.len(),
{
    if items.len() == 0 {
        t
    } else {
        let prev = push_capped(t, items.drop_last(), limit);
        if section_of(prev, items.last().0).len() < limit {
            push_to(prev, items.last().0, items.last().1)
        } else {
            prev
        }
    }
}

/// Capped appending never fills a section beyond `limit`.
pub proof fn lemma_push_capped_within(t: Sections, items: Seq<(SearchSource, SearchHit)>, limit: nat)
    requires
        within(t, limit),
    ensures
        within(push_capped(t, items, limit), limit),
    decreases items.len(),
{
    if items.len() > 0 {
        lemma_push_capped_within(t, items.drop_last(), limit);
    }
}

/// The hits among `items` filed under `source`, in order.
pub open spec fn source_hits(items: Seq<(SearchSource, SearchHit)>, source: SearchSource) -> Seq<SearchHit>
    decreases items.len(),
{
    if items.len() == 0 {
        Seq::empty()
    } else if items.last().0 == source {
        source_hits(items.drop_last(), source).push(items.last().1)
    } else {
        source_hits(items.drop_last(), source)
    }
}

/// Items all filed under `source` put all their hits, in order, under
/// `source` and none under any other source.
pub proof fn lemma_source_hits_uniform(items: Seq<(SearchSource, SearchHit)>, source: SearchSource, other: SearchSource)
    requires
        forall|i: int| 0 <= i < items.len() ==> (#[trigger] items[i]).0 == source,
    ensures
        source_hits(items, source).len() == items.len(),
        forall|i: int| 0 <= i < items.len() ==> source_hits(items, source)[i] == (#[trigger] items[i]).1,
        other != source ==> source_hits(items, other) == Seq::<SearchHit>::empty(),
    decreases items.len(),
{
    if items.len() > 0 {
        let d = items.drop_last();
        assert forall|i: int| 0 <= i < d.len() implies (#[trigger] d[i]).0 == source by {
            assert(d[i] == items[i]);
        }
        lemma_source_hits_uniform(d, source, other);
        assert(items.last() == items[items.len() - 1]);
        assert forall|i: int| 0 <= i < items.len() implies source_hits(items, source)[i] == (#[trigger] items[i]).1 by {
            if i < d.len() {
                assert(d[i] == items[i]);
            }
        }
    }
}

/// Appending items keeps every section's hits in front, in their order,
/// and puts the items filed under that section after them, in the items'
/// order.
pub proof fn lemma_push_all_sections(t: Sections, items: Seq<(SearchSource, SearchHit)>, source: SearchSource)
    ensures
        section_of(push_all(t, items), source) == section_of(t, source) + source_hits(items, source),
    decreases items.len(),
{
    if items.len() == 0 {
        assert(section_of(t, source) + Seq::<SearchHit>::empty() =~= section_of(t, source));
    } else {
        lemma_push_all_sections(t, items.drop_last(), source);
        if items.last().0 == source {
            assert(section_of(t, source) + source_hits(items.drop_last(), source).push(items.last().1)
                =~= (section_of(t, source) + source_hits(items.drop_last(), source)).push(items.last().1));
        }
    }
}

/// Capped appending keeps every section's hits in front, in their order,
/// and after them puts the first items filed under that section, in the
/// items' order, as many as fit below `limit`: the rest are dropped.
pub proof fn lemma_push_capped_sections(
    t: Sections,
    items: Seq<(SearchSource, SearchHit)>,
    limit: nat,
    source: SearchSource,
)
    requires
        section_of(t, source).len() <= limit,
    ensures
        section_of(push_capped(t, items, limit), source) == section_of(t, source) + source_hits(
            items,
            source,
        ).take(
            if source_hits(items, source).len() <= limit - section_of(t, source).len() {
                source_hits(items, source).len() as int
            } else {
                limit - section_of(t, source).len()
            },
        ),
    decreases items.len(),
{
    let a = section_of(t, source);
    let h = source_hits(items, source);
    if items.len() == 0 {
        assert(a + h.take(0) =~= a);
    } else {
        let d = items.drop_last();
        let hd = source_hits(d, source);
        lemma_push_capped_sections(t, d, limit, source);
        if items.last().0 == source {
            let prev = push_capped(t, d, limit);
            if section_of(prev, source).len() < limit {
                assert(hd.len() < limit - a.len());
                assert(a + h.take(h.len() as int) =~= (a + hd.take(hd.len() as int)).push(items.last().1));
            } else {
                assert(limit - a.len() <= hd.len());
                assert(h.take(limit - a.len()) =~= hd.take(limit - a.len()));
            }
        }
    }
}

/// Number of hits in sections.
pub open spec fn sections_len(t: Sections) -> nat {
    t.0.len() + t.1.len() + t.2.len()
}

/// Appending items adds exactly their number of hits.
pub proof fn lemma_push_all_len(t: Sections, items: Seq<(SearchSource, SearchHit)>)
    ensures
        sections_len(push_all(t, items)) == sections_len(t) + items.len(),
    decreases items.len(),
{
    if items.len() > 0 {
        lemma_push_all_len(t, items.drop_last());
    }
}

/// `r2` is `r1` with hits appended and nothing else changed.
pub open spec fn same_header(r1: SearchResponse, r2: SearchResponse) -> bool {
    &&& r2.query == r1.query
    &&& r2.provider == r1.provider
    &&& r2.answer == r1.answer
    &&& r2.elapsed_ms == r1.elapsed_ms
}

impl SearchResponse {
    /// Constructs an empty response for the given provider/query.
    pub fn new(query: &str, provider: &'static str) -> (r: Self)
        ensures
            r.query@ == query@,
            r.provider == provider,
            r.answer is None,
            r.web@.len() == 0,
            r.news@.len() == 0,
            r.images@.len() == 0,
            r.elapsed_ms == 0,
    {
        SearchResponse {
            query: query.to_owned(),
            provider,
            answer: None,
            web: Vec::new(),
            news: Vec::new(),
            images: Vec::new(),
            elapsed_ms: 0,
        }
    }

    /// Every hit across all sources, web first, then news, then images.
    pub fn all_hits(&self) -> (v: Vec<&SearchHit>)
        ensures
            v@.len() == all_hits_spec(*self).len(),
            forall|i: int| 0 <= i < v@.len() ==> *v@[i] == all_hits_spec(*self)[i],
    {
        let mut v: Vec<&SearchHit> = Vec::new();
        let mut i: usize = 0;
        while i < self.web.len()
            invariant
                0 <= i <= self.web@.len(),
                v@.len() == i,
                forall|j: int| 0 <= j < i ==> *v@[j] == self.web@[j],
            decreases self.web@.len() - i,
        {
            v.push(&self.web[i]);
            i += 1;
        }
        let mut i: usize = 0;
        while i < self.news.len()
            invariant
                0 <= i <= self.news@.len(),
                v@.len() == self.web@.len() + i,
                forall|j: int| 0 <= j < self.web@.len() ==> *v@[j] == self.web@[j],
                forall|j: int| 0 <= j < i ==> *v@[self.web@.len() + j] == self.news@[j],
            decreases self.news@.len() - i,
        {
            v.push(&self.news[i]);
            i += 1;
        }
        let mut i: usize = 0;
        while i < self.images.len()
            invariant
                0 <= i <= self.images@.len(),
                v@.len() == self.web@.len() + self.news@.len() + i,
                forall|j: int| 0 <= j < self.web@.len() ==> *v@[j] == self.web@[j],
                forall|j: int|
                    0 <= j < self.news@.len() ==> *v@[self.web@.len() + j] == self.news@[j],
                forall|j: int|
                    0 <= j < i ==> *v@[self.web@.len() + self.news@.len() + j]
                        == self.images@[j],
            decreases self.images@.len() - i,
        {
            v.push(&self.images[i]);
            i += 1;
        }
        assert forall|i: int| 0 <= i < v@.len() implies *v@[i] == all_hits_spec(*self)[i] by {
            if i < self.web@.len() {
            } else if i < self.web@.len() + self.news@.len() {
                assert(*v@[self.web@.len() + (i - self.web@.len())] == self.news@[i
                    - self.web@.len()]);
            } else {
                assert(*v@[self.web@.len() + self.news@.len() + (i - self.web@.len()
                    - self.news@.len())] == self.images@[i - self.web@.len()
                    - self.news@.len()]);
            }
        }
        v
    }

    /// Total number of results across all sources.
    pub fn total(&self) -> (n: usize)
        requires
            total_spec(*self) <= usize::MAX,
        ensures
            n == total_spec(*self),
    {
        self.web.len() + self.news.len() + self.images.len()
    }

    /// Pushes a hit into the slot matching the given source.
    pub fn push(&mut self, source: SearchSource, hit: SearchHit)
        ensures
            sections(*final(self)) == push_to(sections(*old(self)), source, hit),
            final(self).query == old(self).query,
            final(self).provider == old(self).provider,
            final(self).answer == old(self).answer,
            final(self).elapsed_ms == old(self).elapsed_ms,
            total_spec(*final(self)) == total_spec(*old(self)) + 1,
            section(*final(self), source) == section(*old(self), source).push(hit),
    {
        match source {
            SearchSource::Web => self.web.push(hit),
            SearchSource::News => self.news.push(hit),
            SearchSource::Images => self.images.push(hit),
        }
    }
}

} // verus!
