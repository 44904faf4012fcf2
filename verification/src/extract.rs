//! Extraction of links from a fetched page.
//!
//! HTML parsing is delegated to the `scraper` crate, which parses
//! defensively: malformed markup never aborts extraction.  The anchor hrefs
//! of a document are a fixed function of its text, named by `hrefs_of`.
//! Each href is resolved against the page's URL, and hrefs that fail to
//! resolve are dropped.

use crate::urls::join_of;
use crate::urls::resolve;
use vstd::prelude::*;

verus! {

/// The href attributes of the anchor elements of the parsed document, in
/// document order, skipping anchors without one.
pub uninterp spec fn hrefs_of(html: Seq<char>) -> Seq<Seq<char>>;

/// Relies on scraper's `Html::parse_document`, `Html::select` with the
/// anchor selector, and `ElementRef::attr`: the anchor hrefs of a document,
/// in document order, depend on the HTML text alone, and malformed markup
/// yields elements rather than a failure.
#[verifier::external_body]
fn collect_anchor_hrefs(html: &str) -> (r: Vec<String>)
    ensures
        r.deep_view() == hrefs_of(html@),
{
    let document = scraper::Html::parse_document(html);
    let selector = scraper::Selector::parse("a").unwrap();
    let mut hrefs: Vec<String> = Vec::new();
    for element in document.select(&selector) {
        if let Some(href) = element.attr("href") {
            hrefs.push(href.to_string());
        }
    }
    hrefs
}

/// The absolute URLs that the hrefs resolve to against `base`, in order,
/// with unresolvable hrefs dropped.
pub open spec fn spec_resolved_links(base: Seq<char>, hrefs: Seq<Seq<char>>) -> Seq<Seq<char>>
    decreases hrefs.len(),
{
    if hrefs.len() == 0 {
        Seq::empty()
    } else {
        let rest = spec_resolved_links(base, hrefs.drop_last());
        match join_of(base, hrefs.last()) {
            Some(u) => rest.push(u),
            None => rest,
        }
    }
}

/// One more href extends the resolved list by its resolution, when it has
/// one.
proof fn lemma_resolved_links_step(base: Seq<char>, hrefs: Seq<Seq<char>>, i: int)
    requires
        0 <= i < hrefs.len(),
    ensures
        spec_resolved_links(base, hrefs.take(i + 1)) == match join_of(base, hrefs[i]) {
            Some(u) => spec_resolved_links(base, hrefs.take(i)).push(u),
            None => spec_resolved_links(base, hrefs.take(i)),
        },
{
    assert(hrefs.take(i + 1).drop_last() =~= hrefs.take(i));
    assert(hrefs.take(i + 1).last() == hrefs[i]);
}

/// Collect every anchor href in `html`, resolve each against `base_url`,
/// and append the resulting absolute URLs to `to_visit`, in document order;
/// hrefs that fail to resolve are silently dropped.
pub fn extract_links_from_html(html: &str, base_url: &str, to_visit: &mut Vec<String>)
    ensures
        final(to_visit).deep_view() == old(to_visit).deep_view() + spec_resolved_links(
            base_url@,
            hrefs_of(html@),
        ),
{
    let ghost orig: Seq<Seq<char>> = to_visit.deep_view();
    let hrefs = collect_anchor_hrefs(html);
    let n = hrefs.len();
    let mut i: usize = 0;
    while i < n
        invariant
            0 <= i <= n,
            n == hrefs@.len(),
            hrefs.deep_view() == hrefs_of(html@),
            to_visit.deep_view() == orig + spec_resolved_links(
                base_url@,
                hrefs.deep_view().take(i as int),
            ),
        decreases n - i,
    {
        match resolve(base_url, hrefs[i].as_str()) {
            Ok(absolute) => {
                let ghost before: Seq<Seq<char>> = to_visit.deep_view();
                let ghost a: Seq<char> = absolute@;
                to_visit.push(absolute);
                proof {
                    assert(to_visit.deep_view() =~= before.push(a));
                    lemma_resolved_links_step(base_url@, hrefs.deep_view(), i as int);
                    assert(orig + spec_resolved_links(
                        base_url@,
                        hrefs.deep_view().take(i as int),
                    ).push(a) =~= (orig + spec_resolved_links(
                        base_url@,
                        hrefs.deep_view().take(i as int),
                    )).push(a));
                }
            },
            Err(_) => {
                proof {
                    lemma_resolved_links_step(base_url@, hrefs.deep_view(), i as int);
                }
            },
        }
        i = i + 1;
    }
    proof {
        assert(hrefs.deep_view().take(n as int) =~= hrefs.deep_view());
    }
}

} // verus!
