//! Plain-text renderings of a crawl's records for the reporting layer: one
//! URL per line, or the URLs joined by newlines without a trailing one.

use crate::link::LinkInfo;
use crate::link::RecordView;
use vstd::prelude::*;

verus! {

/// The URLs of the records, each followed by a newline.
pub open spec fn spec_url_lines(recs: Seq<RecordView>) -> Seq<char>
    decreases recs.len(),
{
    if recs.len() == 0 {
        Seq::empty()
    } else {
        spec_url_lines(recs.drop_last()) + recs.last().url + seq!['\n']
    }
}

/// The URLs of the records, separated by newlines, with none at the end.
pub open spec fn spec_url_joined(recs: Seq<RecordView>) -> Seq<char>
    decreases recs.len(),
{
    if recs.len() == 0 {
        Seq::empty()
    } else if recs.len() == 1 {
        recs.last().url
    } else {
        spec_url_joined(recs.drop_last()) + seq!['\n'] + recs.last().url
    }
}

/// Render the records' URLs one per line.
pub fn render_url_lines(links: &Vec<LinkInfo>) -> (r: String)
    ensures
        r@ == spec_url_lines(links.deep_view()),
{
    let n = links.len();
    let mut out = String::new();
    let mut i: usize = 0;
    while i < n
        invariant
            0 <= i <= n,
            n == links@.len(),
            out@ == spec_url_lines(links.deep_view().take(i as int)),
        decreases n - i,
    {
        out.append(links[i].url.as_str());
        out.append("\n");
        proof {
            reveal_strlit("\n");
            assert("\n"@ =~= seq!['\n']);
            let recs = links.deep_view();
            assert(recs.take(i + 1).drop_last() =~= recs.take(i as int));
            assert(recs.take(i + 1).last() == recs[i as int]);
        }
        i = i + 1;
    }
    proof {
        assert(links.deep_view().take(n as int) =~= links.deep_view());
    }
    out
}

/// Render the records' URLs joined by newlines.
pub fn render_url_joined(links: &Vec<LinkInfo>) -> (r: String)
    ensures
        r@ == spec_url_joined(links.deep_view()),
{
    let n = links.len();
    let mut out = String::new();
    let mut i: usize = 0;
    while i < n
        invariant
            0 <= i <= n,
            n == links@.len(),
            out@ == spec_url_joined(links.deep_view().take(i as int)),
        decreases n - i,
    {
        if i > 0 {
            out.append("\n");
        }
        out.append(links[i].url.as_str());
        proof {
            reveal_strlit("\n");
            assert("\n"@ =~= seq!['\n']);
            let recs = links.deep_view();
            assert(recs.take(i + 1).drop_last() =~= recs.take(i as int));
            assert(recs.take(i + 1).last() == recs[i as int]);
        }
        i = i + 1;
    }
    proof {
        assert(links.deep_view().take(n as int) =~= links.deep_view());
    }
    out
}

} // verus!
