//! HTML parsing for the `DuckDuckGo` provider.
//!
//! The document is parsed and queried with the `scraper` crate; what its
//! CSS selection yields is named ([`selected_blocks`]), and everything made
//! of it — text collection, redirect unwrapping, result filtering, layout
//! failure detection — is verified here. The entry points are
//! [`parse_html_results`] (html.duckduckgo.com layout) and
//! [`parse_lite_results`] (lite.duckduckgo.com table layout).

use scraper::{ElementRef, Html, Selector};
use vstd::prelude::*;
use vstd::string::StringSliceAdditionalSpecFns;

use super::captcha::{byte_len, MIN_HTML_BODY_BYTES};
use super::PROVIDER_ID;
use crate::error::SearchError;
use crate::response::SearchHit;
use crate::text::{
    contains, contains_spec, ends_with, ends_with_spec, opt_string, push_char, push_str,
    starts_with, starts_with_spec, str_eq, trim, trim_spec,
};
use crate::urls::{url_components, url_parts};

verus! {

/// An element as the selection sees it: the text nodes under it, in the
/// order `scraper` yields them, and its `href` attribute.
#[derive(Debug, Clone)]
pub struct Element {
    /// The text nodes under the element.
    pub text: Vec<String>,
    /// The `href` attribute, if any.
    pub href: Option<String>,
}

/// An element matched by a block selector, with the first descendant
/// matched by each inner selector.
#[derive(Debug, Clone)]
pub struct Block {
    /// The block element itself.
    pub element: Element,
    /// For each inner selector, in order, its first match under the block.
    pub inner: Vec<Option<Element>>,
}

/// The text view of an element: text nodes and `href`.
pub type ElementView = (Seq<Seq<char>>, Option<Seq<char>>);

/// The text view of a block.
pub type BlockView = (ElementView, Seq<Option<ElementView>>);

/// What the selection of `scraper` yields for a body: `None` when a
/// selector does not compile (`Selector::parse`); otherwise, for every
/// element matching `block_css`, in the order `Html::select` yields them on
/// `Html::parse_document(body)`, its view and, per inner selector, the view
/// of its first matching descendant (`ElementRef::select`), each view made
/// of the text nodes `ElementRef::text` yields and of
/// `ElementRef::attr("href")`.
pub uninterp spec fn selected_blocks(
    body: Seq<char>,
    block_css: Seq<char>,
    inner_css: Seq<Seq<char>>,
) -> Option<Seq<BlockView>>;

/// The text view of a list of strings.
pub open spec fn chunks_view(v: Seq<String>) -> Seq<Seq<char>> {
    v.map_values(|s: String| s@)
}

/// The text view of an element.
pub open spec fn element_view(e: Element) -> ElementView {
    (chunks_view(e.text@), opt_string(e.href))
}

/// The text view of an optional element.
pub open spec fn opt_element_view(e: Option<Element>) -> Option<ElementView> {
    match e {
        Some(x) => Some(element_view(x)),
        None => None,
    }
}

/// The text view of a block.
pub open spec fn block_view(b: Block) -> BlockView {
    (element_view(b.element), b.inner@.map_values(|o: Option<Element>| opt_element_view(o)))
}

/// The text view of a selection.
pub open spec fn blocks_view(r: Option<Vec<Block>>) -> Option<Seq<BlockView>> {
    match r {
        Some(v) => Some(v@.map_values(|b: Block| block_view(b))),
        None => None,
    }
}

/// The text view of a list of selectors.
pub open spec fn css_view(v: Seq<&str>) -> Seq<Seq<char>> {
    v.map_values(|s: &str| s@)
}

/// Parses `body` as an HTML document and selects, for every element that
/// matches `block_css`, its text and `href` and those of the first
/// descendant matching each of `inner_css`.
#[verifier::external_body]
fn select_blocks(body: &str, block_css: &str, inner_css: &[&str]) -> (r: Option<Vec<Block>>)
    ensures
        blocks_view(r) == selected_blocks(body@, block_css@, css_view(inner_css@)),
{
    let block = Selector::parse(block_css).ok()?;
    let inner: Vec<Selector> = inner_css.iter().map(|c| Selector::parse(c).ok()).collect::<Option<_>>()?;
    let doc = Html::parse_document(body);
    let view = |e: ElementRef| Element { text: e.text().map(str::to_owned).collect(), href: e.attr("href").map(str::to_owned) };
    Some(doc.select(&block).map(|n| Block { element: view(n), inner: inner.iter().map(|s| n.select(s).next().map(view)).collect() }).collect())
}

/// The text of an element: its text nodes trimmed, empty ones dropped,
/// the rest joined with single spaces.
pub open spec fn collect_spec(chunks: Seq<Seq<char>>) -> Seq<char>
    decreases chunks.len(),
{
    if chunks.len() == 0 {
        Seq::empty()
    } else {
        let prev = collect_spec(chunks.drop_last());
        let t = trim_spec(chunks.last());
        if t.len() == 0 {
            prev
        } else if prev.len() == 0 {
            t
        } else {
            prev + seq![' '] + t
        }
    }
}

/// Joins the trimmed, non-empty text nodes of an element with spaces.
pub fn collect_text(chunks: &Vec<String>) -> (buf: String)
    ensures
        buf@ == collect_spec(chunks_view(chunks@)),
{
    let ghost view = chunks_view(chunks@);
    let mut buf = String::new();
    let mut i: usize = 0;
    while i < chunks.len()
        invariant
            view == chunks_view(chunks@),
            0 <= i <= chunks@.len(),
            buf@ == collect_spec(view.take(i as int)),
        decreases chunks@.len() - i,
    {
        let trimmed = trim(chunks[i].as_str());
        proof {
            assert(view.take(i + 1).drop_last() =~= view.take(i as int));
            assert(view.take(i + 1).last() == chunks@[i as int]@);
        }
        if !trimmed.as_str().is_empty() {
            if !buf.as_str().is_empty() {
                push_char(&mut buf, ' ');
            }
            push_str(&mut buf, trimmed.as_str());
        }
        i += 1;
    }
    assert(view.take(chunks@.len() as int) =~= view);
    buf
}

/// A trimmed, non-empty link made absolute: protocol-relative links get
/// `https:`, site-relative ones `https://duckduckgo.com`.
pub open spec fn normalized_href(t: Seq<char>) -> Seq<char> {
    if starts_with_spec(t, "//"@) {
        "https:"@ + t
    } else if starts_with_spec(t, "/"@) {
        "https://duckduckgo.com/"@ + t.drop_first()
    } else {
        t
    }
}

/// Normalising makes a link absolute and keeps it otherwise: a
/// protocol-relative link (`//host/...`) gets the `https:` scheme, a
/// site-relative one (`/path`) is placed under `https://duckduckgo.com`,
/// and any other link is kept as it is; the link always ends the result.
pub proof fn lemma_normalized_href(t: Seq<char>)
    ensures
        t.len() >= 2 && t[0] == '/' && t[1] == '/' ==> normalized_href(t) == "https:"@ + t,
        t.len() >= 1 && t[0] == '/' && !(t.len() >= 2 && t[1] == '/') ==> normalized_href(t)
            == "https://duckduckgo.com"@ + t,
        !(t.len() >= 1 && t[0] == '/') ==> normalized_href(t) == t,
{
    reveal_strlit("//");
    reveal_strlit("/");
    reveal_strlit("https://duckduckgo.com/");
    reveal_strlit("https://duckduckgo.com");
    let d = "https://duckduckgo.com"@;
    let ds = "https://duckduckgo.com/"@;
    assert("/"@ =~= seq!['/']);
    assert("//"@ =~= seq!['/', '/']);
    if t.len() >= 2 {
        assert(t.subrange(0, 2) =~= seq![t[0], t[1]]);
    }
    if t.len() >= 1 {
        assert(t.subrange(0, 1) =~= seq![t[0]]);
        if t[0] == '/' {
            assert(starts_with_spec(t, "/"@));
            assert(ds + t.drop_first() =~= d + t);
        }
    }
    if t.len() >= 2 && t[0] == '/' && t[1] == '/' {
        assert(starts_with_spec(t, "//"@));
    }
    if starts_with_spec(t, "//"@) {
        assert(t.subrange(0, 2)[1] == "//"@[1]);
    }
    if starts_with_spec(t, "/"@) {
        assert(t.subrange(0, 1)[0] == "/"@[0]);
    }
}

/// `duckduckgo.com` or one of its subdomains.
pub open spec fn is_ddg_host(h: Seq<char>) -> bool {
    h == "duckduckgo.com"@ || ends_with_spec(h, ".duckduckgo.com"@)
}

/// The value of the first pair named `key`.
pub open spec fn first_value(pairs: Seq<(Seq<char>, Seq<char>)>, key: Seq<char>) -> Option<Seq<char>>
    decreases pairs.len(),
{
    if pairs.len() == 0 {
        None
    } else if pairs[0].0 == key {
        Some(pairs[0].1)
    } else {
        first_value(pairs.drop_first(), key)
    }
}

/// The destination of a redirect link: for a `duckduckgo.com` URL whose
/// path starts with `/l/` and whose query has a `uddg` pair, that pair's
/// decoded value.
pub open spec fn redirect_target(url: Seq<char>) -> Option<Seq<char>> {
    match url_components(url) {
        Some(parts) => match parts.0 {
            Some(host) => if is_ddg_host(host) && starts_with_spec(parts.1, "/l/"@) {
                first_value(parts.2, "uddg"@)
            } else {
                None
            },
            None => None,
        },
        None => None,
    }
}

/// The real destination of a result link: empty for a blank link, the
/// redirect target of a `DuckDuckGo` redirect, the normalised link
/// otherwise.
pub open spec fn unwrap_ddg_spec(href: Seq<char>) -> Seq<char> {
    let t = trim_spec(href);
    if t.len() == 0 {
        Seq::empty()
    } else {
        match redirect_target(normalized_href(t)) {
            Some(v) => v,
            None => normalized_href(t),
        }
    }
}

fn first_pair_value(pairs: &Vec<(String, String)>, key: &str) -> (r: Option<String>)
    ensures
        opt_string(r) == first_value(pairs@.map_values(|q: (String, String)| (q.0@, q.1@)), key@),
{
    let ghost view = pairs@.map_values(|q: (String, String)| (q.0@, q.1@));
    assert(view.skip(0) =~= view);
    let mut i: usize = 0;
    while i < pairs.len()
        invariant
            view == pairs@.map_values(|q: (String, String)| (q.0@, q.1@)),
            0 <= i <= pairs@.len(),
            first_value(view, key@) == first_value(view.skip(i as int), key@),
        decreases pairs@.len() - i,
    {
        assert(view.skip(i as int)[0] == view[i as int]);
        assert(view.skip(i as int).drop_first() =~= view.skip(i + 1));
        if str_eq(pairs[i].0.as_str(), key) {
            return Some(pairs[i].1.clone());
        }
        i += 1;
    }
    assert(view.skip(i as int).len() == 0);
    None
}

/// Unwraps a `DuckDuckGo` redirect link into the real destination URL.
///
/// `DuckDuckGo` wraps every outbound link in a `/l/?uddg=<encoded>` path;
/// links may be absolute, protocol-relative or site-relative.
pub fn unwrap_ddg_url(href: &str) -> (r: String)
    ensures
        r@ == unwrap_ddg_spec(href@),
{
    let t = trim(href);
    if t.as_str().is_empty() {
        return String::new();
    }
    let ghost tv = t@;
    let normalized = if starts_with(t.as_str(), "//") {
        let mut s = String::new();
        push_str(&mut s, "https:");
        push_str(&mut s, t.as_str());
        s
    } else if starts_with(t.as_str(), "/") {
        let v = crate::text::chars_of(t.as_str());
        let rest = crate::text::string_of(vstd::slice::slice_subrange(v.as_slice(), 1, v.len()));
        let mut s = String::new();
        push_str(&mut s, "https://duckduckgo.com/");
        push_str(&mut s, rest.as_str());
        s
    } else {
        t
    };
    assert(normalized@ == normalized_href(tv));
    match url_parts(normalized.as_str()) {
        Some(parts) => {
            match &parts.host {
                Some(host) => {
                    let ddg = str_eq(host.as_str(), "duckduckgo.com") || ends_with(
                        host.as_str(),
                        ".duckduckgo.com",
                    );
                    if ddg && starts_with(parts.path.as_str(), "/l/") {
                        match first_pair_value(&parts.query, "uddg") {
                            Some(v) => return v,
                            None => {},
                        }
                    }
                },
                None => {},
            }
            normalized
        },
        None => normalized,
    }
}

/// A hit as the parser builds it: title, URL and optional snippet.
pub type HitView = (Seq<char>, Seq<char>, Option<Seq<char>>);

/// The hit `h` is the parsed hit `v`: engine `duckduckgo`, no date, no
/// score.
pub open spec fn hit_is(h: SearchHit, v: HitView) -> bool {
    &&& h.title@ == v.0
    &&& h.url@ == v.1
    &&& opt_string(h.description) == v.2
    &&& h.published_at is None
    &&& h.engine matches Some(e) && e@ == PROVIDER_ID@
    &&& h.score is None
}

/// The hits are the parsed hits, in order.
pub open spec fn hits_are(hs: Seq<SearchHit>, vs: Seq<HitView>) -> bool {
    hs.len() == vs.len() && forall|i: int| 0 <= i < vs.len() ==> hit_is(#[trigger] hs[i], vs[i])
}

/// The first match of the `k`-th inner selector of a block.
pub open spec fn inner_at(b: BlockView, k: int) -> Option<ElementView> {
    if 0 <= k < b.1.len() {
        b.1[k]
    } else {
        None
    }
}

/// The collected text of an element, when it is not empty.
pub open spec fn non_empty_text(e: Option<ElementView>) -> Option<Seq<char>> {
    match e {
        Some(x) => if collect_spec(x.0).len() > 0 {
            Some(collect_spec(x.0))
        } else {
            None
        },
        None => None,
    }
}

/// The hit a titled link makes: none without `href`, or when the title or
/// the unwrapped URL is empty.
pub open spec fn link_hit(link: ElementView, description: Option<Seq<char>>) -> Option<HitView> {
    let title = collect_spec(link.0);
    match link.1 {
        Some(href) => {
            let url = unwrap_ddg_spec(href);
            if url.len() == 0 || title.len() == 0 {
                None
            } else {
                Some((title, url, description))
            }
        },
        None => None,
    }
}

/// The hit a `div.result` block makes: its first `a.result__a` link with
/// the text of its first snippet element.
pub open spec fn html_item(b: BlockView) -> Option<HitView> {
    match inner_at(b, 0) {
        Some(link) => link_hit(link, non_empty_text(inner_at(b, 1))),
        None => None,
    }
}

/// The hits of the html layout, in the order of the blocks.
pub open spec fn html_items(bs: Seq<BlockView>) -> Seq<HitView>
    decreases bs.len(),
{
    if bs.len() == 0 {
        Seq::empty()
    } else {
        let prev = html_items(bs.drop_last());
        match html_item(bs.last()) {
            Some(h) => prev.push(h),
            None => prev,
        }
    }
}

/// The html layout reads blocks one at a time, in order: the hits of two
/// runs of blocks are the hits of the first run followed by those of the
/// second.
pub proof fn lemma_html_items_concat(a: Seq<BlockView>, b: Seq<BlockView>)
    ensures
        html_items(a + b) == html_items(a) + html_items(b),
    decreases b.len(),
{
    if b.len() == 0 {
        assert(a + b =~= a);
        assert(html_items(a) + Seq::<HitView>::empty() =~= html_items(a));
    } else {
        lemma_html_items_concat(a, b.drop_last());
        assert((a + b).drop_last() =~= a + b.drop_last());
        assert((a + b).last() == b.last());
        match html_item(b.last()) {
            Some(h) => {
                assert(html_items(a) + html_items(b.drop_last()).push(h) =~= (html_items(a)
                    + html_items(b.drop_last())).push(h));
            },
            None => {},
        }
    }
}

/// A single block gives its own hit, if it makes one, and nothing else.
pub proof fn lemma_html_items_single(x: BlockView)
    ensures
        html_items(seq![x]) == match html_item(x) {
            Some(h) => seq![h],
            None => Seq::<HitView>::empty(),
        },
{
    let one = seq![x];
    assert(one.drop_last() =~= Seq::<BlockView>::empty());
    assert(html_items(Seq::<BlockView>::empty()) == Seq::<HitView>::empty());
    assert(html_items(one.drop_last()) == Seq::<HitView>::empty());
    assert(one.last() == x);
    match html_item(x) {
        Some(h) => {
            assert(Seq::<HitView>::empty().push(h) =~= seq![h]);
        },
        None => {},
    }
}

/// A page that says it has no results.
pub open spec fn says_no_results(body: Seq<char>) -> bool {
    contains_spec(body, "No results."@) || contains_spec(body, "no-results"@) || contains_spec(
        body,
        "No results found"@,
    )
}

/// The failure reported when a selector does not compile.
pub open spec fn selector_failure(r: Result<Vec<SearchHit>, SearchError>) -> bool {
    r matches Err(SearchError::ParseFailed { provider, message }) && provider == PROVIDER_ID
        && message@ == "invalid CSS selector"@
}

/// What the html layout yields for a selection: the hits, or a parse
/// failure when there are none although the page is large and does not
/// say it has no results.
pub open spec fn html_outcome(r: Result<Vec<SearchHit>, SearchError>, blocks: Option<Seq<BlockView>>, body: Seq<char>) -> bool {
    match blocks {
        None => selector_failure(r),
        Some(bs) => {
            let items = html_items(bs);
            if items.len() == 0 && byte_len(body) > MIN_HTML_BODY_BYTES && !says_no_results(body) {
                r matches Err(SearchError::ParseFailed { provider, message }) && provider
                    == PROVIDER_ID && message@ == "no div.result nodes matched in html endpoint"@
            } else {
                r matches Ok(v) && hits_are(v@, items)
            }
        },
    }
}

fn element_text(e: Option<&Element>) -> (r: Option<String>)
    ensures
        opt_string(r) == non_empty_text(
            match e {
                Some(x) => Some(element_view(*x)),
                None => None,
            },
        ),
{
    match e {
        Some(x) => {
            let t = collect_text(&x.text);
            if t.as_str().is_empty() {
                None
            } else {
                Some(t)
            }
        },
        None => None,
    }
}

fn inner_ref(b: &Block, k: usize) -> (r: Option<&Element>)
    ensures
        match r {
            Some(x) => Some(element_view(*x)),
            None => None,
        } == inner_at(block_view(*b), k as int),
{
    if k < b.inner.len() {
        match &b.inner[k] {
            Some(e) => Some(e),
            None => None,
        }
    } else {
        None
    }
}

fn make_hit(link: &Element, description: Option<String>) -> (r: Option<SearchHit>)
    ensures
        match link_hit(element_view(*link), opt_string(description)) {
            Some(v) => r matches Some(h) && hit_is(h, v),
            None => r is None,
        },
{
    let title = collect_text(&link.text);
    match &link.href {
        Some(href) => {
            let url = unwrap_ddg_url(href.as_str());
            if url.as_str().is_empty() || title.as_str().is_empty() {
                None
            } else {
                Some(
                    SearchHit {
                        title,
                        url,
                        description,
                        published_at: None,
                        engine: Some(PROVIDER_ID.to_owned()),
                        score: None,
                    },
                )
            }
        },
        None => None,
    }
}

/// The hits of the html layout, given the selection made of the page.
///
/// # Errors
///
/// [`SearchError::ParseFailed`] when a selector did not compile, or when
/// no result matched although the body is larger than
/// [`MIN_HTML_BODY_BYTES`] and has no "no results" marker.
pub fn html_hits(blocks: Option<Vec<Block>>, body: &str) -> (r: Result<Vec<SearchHit>, SearchError>)
    ensures
        html_outcome(r, blocks_view(blocks), body@),
{
    let blocks = match blocks {
        Some(b) => b,
        None => {
            return Err(
                SearchError::ParseFailed {
                    provider: PROVIDER_ID,
                    message: "invalid CSS selector".to_owned(),
                },
            )
        },
    };
    let ghost bs = blocks@.map_values(|b: Block| block_view(b));
    let mut out: Vec<SearchHit> = Vec::new();
    let mut i: usize = 0;
    while i < blocks.len()
        invariant
            bs == blocks@.map_values(|b: Block| block_view(b)),
            0 <= i <= blocks@.len(),
            hits_are(out@, html_items(bs.take(i as int))),
        decreases blocks@.len() - i,
    {
        let b = &blocks[i];
        proof {
            assert(bs.take(i + 1).drop_last() =~= bs.take(i as int));
            assert(bs.take(i + 1).last() == block_view(*b));
        }
        let link = inner_ref(b, 0);
        match link {
            Some(l) => {
                let description = element_text(inner_ref(b, 1));
                match make_hit(l, description) {
                    Some(h) => {
                        let ghost prev = out@;
                        out.push(h);
                        assert forall|j: int| 0 <= j < out@.len() implies hit_is(
                            #[trigger] out@[j],
                            html_items(bs.take(i + 1))[j],
                        ) by {
                            if j < prev.len() {
                                assert(out@[j] == prev[j]);
                            }
                        }
                    },
                    None => {},
                }
            },
            None => {},
        }
        i += 1;
    }
    assert(bs.take(blocks@.len() as int) =~= bs);
    assert(body.spec_bytes() == vstd::utf8::encode_utf8(body@));
    if out.len() == 0 && body.as_bytes().len() > MIN_HTML_BODY_BYTES && !(contains(body, "No results.")
        || contains(body, "no-results") || contains(body, "No results found")) {
        return Err(
            SearchError::ParseFailed {
                provider: PROVIDER_ID,
                message: "no div.result nodes matched in html endpoint".to_owned(),
            },
        );
    }
    Ok(out)
}

/// Extracts results from the html.duckduckgo.com layout: `div.result`
/// blocks, their first `a.result__a` link and first snippet.
///
/// # Errors
///
/// As [`html_hits`].
pub fn parse_html_results(body: &str) -> (r: Result<Vec<SearchHit>, SearchError>)
    ensures
        html_outcome(
            r,
            selected_blocks(
                body@,
                "div.result"@,
                seq!["a.result__a"@, "a.result__snippet, .result__snippet"@],
            ),
            body@,
        ),
{
    let inner: [&str; 2] = ["a.result__a", "a.result__snippet, .result__snippet"];
    let blocks = select_blocks(body, "div.result", inner.as_slice());
    assert(css_view(inner@) =~= seq!["a.result__a"@, "a.result__snippet, .result__snippet"@]);
    html_hits(blocks, body)
}

/// The hit a lite row makes: its first `a.result-link`, with the text of
/// the next row as snippet.
pub open spec fn lite_item(rows: Seq<BlockView>, i: int) -> Option<HitView> {
    match inner_at(rows[i], 0) {
        Some(link) => link_hit(
            link,
            if i + 1 < rows.len() {
                non_empty_text(Some(rows[i + 1].0))
            } else {
                None
            },
        ),
        None => None,
    }
}

/// The hits of the lite layout from row `i` on: a row that makes a hit is
/// followed by its snippet, metadata and spacer rows, which are skipped.
pub open spec fn lite_items(rows: Seq<BlockView>, i: int) -> Seq<HitView>
    decreases rows.len() - i,
{
    if i < 0 || i >= rows.len() {
        Seq::empty()
    } else {
        match lite_item(rows, i) {
            Some(h) => seq![h] + lite_items(
                rows,
                if i + 4 <= rows.len() {
                    i + 4
                } else {
                    rows.len() as int
                },
            ),
            None => lite_items(rows, i + 1),
        }
    }
}

/// What the lite layout yields for a selection: the hits, or a parse
/// failure when there are none although the page is large and does not
/// say "No results.".
pub open spec fn lite_outcome(r: Result<Vec<SearchHit>, SearchError>, rows: Option<Seq<BlockView>>, body: Seq<char>) -> bool {
    match rows {
        None => selector_failure(r),
        Some(rs) => {
            let items = lite_items(rs, 0);
            if items.len() == 0 && byte_len(body) > MIN_HTML_BODY_BYTES && !contains_spec(
                body,
                "No results."@,
            ) {
                r matches Err(SearchError::ParseFailed { provider, message }) && provider
                    == PROVIDER_ID && message@ == "no a.result-link anchors matched in lite endpoint"@
            } else {
                r matches Ok(v) && hits_are(v@, items)
            }
        },
    }
}

/// The hits of the lite layout, given the selection made of the page.
///
/// # Errors
///
/// [`SearchError::ParseFailed`] when a selector did not compile, or when
/// no result matched although the body is larger than
/// [`MIN_HTML_BODY_BYTES`] and does not say "No results.".
pub fn lite_hits(rows: Option<Vec<Block>>, body: &str) -> (r: Result<Vec<SearchHit>, SearchError>)
    ensures
        lite_outcome(r, blocks_view(rows), body@),
{
    let rows = match rows {
        Some(b) => b,
        None => {
            return Err(
                SearchError::ParseFailed {
                    provider: PROVIDER_ID,
                    message: "invalid CSS selector".to_owned(),
                },
            )
        },
    };
    let ghost rs = rows@.map_values(|b: Block| block_view(b));
    let ghost mut done: Seq<HitView> = Seq::empty();
    let mut out: Vec<SearchHit> = Vec::new();
    let mut i: usize = 0;
    while i < rows.len()
        invariant
            rs == rows@.map_values(|b: Block| block_view(b)),
            0 <= i <= rows@.len(),
            lite_items(rs, 0) == done + lite_items(rs, i as int),
            hits_are(out@, done),
        decreases rows@.len() - i,
    {
        let row = &rows[i];
        assert(rs[i as int] == block_view(*row));
        let link = inner_ref(row, 0);
        let mut advanced = false;
        match link {
            Some(l) => {
                let description = if rows.len() - i > 1 {
                    assert(rs[i + 1] == block_view(rows@[i + 1]));
                    element_text(Some(&rows[i + 1].element))
                } else {
                    None
                };
                match make_hit(l, description) {
                    Some(h) => {
                        let ghost v = lite_item(rs, i as int)->Some_0;
                        let ghost prev = out@;
                        out.push(h);
                        proof {
                            assert forall|j: int| 0 <= j < out@.len() implies hit_is(
                                #[trigger] out@[j],
                                done.push(v)[j],
                            ) by {
                                if j < prev.len() {
                                    assert(out@[j] == prev[j]);
                                }
                            }
                            assert(done + lite_items(rs, i as int) =~= done.push(v) + lite_items(
                                rs,
                                if i + 4 <= rs.len() {
                                    i + 4
                                } else {
                                    rs.len() as int
                                },
                            ));
                            done = done.push(v);
                        }
                        i = if rows.len() - i >= 4 {
                            i + 4
                        } else {
                            rows.len()
                        };
                        advanced = true;
                    },
                    None => {},
                }
            },
            None => {},
        }
        if !advanced {
            i += 1;
        }
    }
    assert(lite_items(rs, i as int) =~= Seq::<HitView>::empty());
    assert(done + Seq::<HitView>::empty() =~= done);
    assert(body.spec_bytes() == vstd::utf8::encode_utf8(body@));
    if out.len() == 0 && body.as_bytes().len() > MIN_HTML_BODY_BYTES && !contains(body, "No results.") {
        return Err(
            SearchError::ParseFailed {
                provider: PROVIDER_ID,
                message: "no a.result-link anchors matched in lite endpoint".to_owned(),
            },
        );
    }
    Ok(out)
}


/// Extracts results from the lite.duckduckgo.com table layout: every `tr`
/// row, its first `a.result-link`, and the next row as snippet.
///
/// # Errors
///
/// As [`lite_hits`].
pub fn parse_lite_results(body: &str) -> (r: Result<Vec<SearchHit>, SearchError>)
    ensures
        lite_outcome(r, selected_blocks(body@, "tr"@, seq!["a.result-link"@]), body@),
{
    let inner: [&str; 1] = ["a.result-link"];
    let rows = select_blocks(body, "tr", inner.as_slice());
    assert(css_view(inner@) =~= seq!["a.result-link"@]);
    lite_hits(rows, body)
}

} // verus!
