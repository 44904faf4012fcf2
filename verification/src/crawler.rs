//! The crawl driver: a frontier of candidate URLs, the set of URLs already
//! taken up, and the records accumulated so far.
//!
//! The driver performs no network access.  Each `step` pops one frontier
//! entry and either finishes, collapses a duplicate, records a
//! policy-excluded URL as ignored, or hands the URL out to be fetched; the
//! caller then reports the fetch outcome to `record_fetch`, which classifies
//! it and pushes the page's links back onto the frontier.  The frontier is a
//! stack, so traversal is depth-first-like; the invariants hold in any pop
//! order.  Duplicates may enter the frontier freely and are collapsed at pop
//! time, never at push time.

use crate::config::Config;
use crate::extract::extract_links_from_html;
use crate::extract::hrefs_of;
use crate::extract::spec_resolved_links;
use crate::link::FetchOutcome;
use crate::link::LinkInfo;
use crate::link::LinkStatus;
use crate::link::OutcomeView;
use crate::link::RecordView;
use crate::link::StatusView;
use crate::link::classify_outcome;
use crate::link::spec_classify;
use crate::link::success_status;
use crate::policy::CrawlPolicy;
use crate::policy::spec_excluded;
use crate::policy::spec_policy_of;
use crate::policy::wf_policy;
use crate::text::str_eq;
use crate::urls::MalformedUrl;
use crate::urls::url_ok;
use vstd::prelude::*;

verus! {

/// The mathematical state of a crawl.
#[verifier::ext_equal]
pub ghost struct CrawlerView {
    pub policy: crate::policy::PolicyView,
    pub frontier: Seq<Seq<char>>,
    pub visited: Seq<Seq<char>>,
    pub scanned: Seq<RecordView>,
    pub ignored: Seq<RecordView>,
    pub pending: Option<Seq<char>>,
}

/// The crawl driver's state: the policy, the frontier stack, the visited
/// list, the two record lists, and the URL handed out for fetching but not
/// yet reported back, if any.
pub struct Crawler {
    policy: CrawlPolicy,
    frontier: Vec<String>,
    visited: Vec<String>,
    scanned: Vec<LinkInfo>,
    ignored: Vec<LinkInfo>,
    pending: Option<String>,
}

impl View for Crawler {
    type V = CrawlerView;

    closed spec fn view(&self) -> CrawlerView {
        CrawlerView {
            policy: self.policy@,
            frontier: self.frontier.deep_view(),
            visited: self.visited.deep_view(),
            scanned: self.scanned.deep_view(),
            ignored: self.ignored.deep_view(),
            pending: match self.pending {
                Some(ref u) => Some(u@),
                None => None,
            },
        }
    }
}

/// The crawl holds exactly one account of `u`: a scanned record, an ignored
/// record, or the fetch in flight.
pub open spec fn has_record_for(v: CrawlerView, u: Seq<char>) -> bool {
    ||| (exists|i: int| 0 <= i < v.scanned.len() && (#[trigger] v.scanned[i]).url == u)
    ||| (exists|i: int| 0 <= i < v.ignored.len() && (#[trigger] v.ignored[i]).url == u)
    ||| v.pending == Some(u)
}

/// The crawl invariant.  No URL is accounted for twice, the visited list
/// and the accounts agree exactly, ignored records are exactly the
/// policy-excluded URLs with status `Ignored`, and scanned records are
/// never excluded and never `Ignored`.
pub open spec fn crawler_inv(v: CrawlerView) -> bool {
    &&& forall|i: int, j: int|
        0 <= i < j < v.scanned.len() ==> (#[trigger] v.scanned[i]).url != (
        #[trigger] v.scanned[j]).url
    &&& forall|i: int, j: int|
        0 <= i < j < v.ignored.len() ==> (#[trigger] v.ignored[i]).url != (
        #[trigger] v.ignored[j]).url
    &&& forall|i: int, j: int|
        0 <= i < v.scanned.len() && 0 <= j < v.ignored.len() ==> (#[trigger] v.scanned[i]).url
            != (#[trigger] v.ignored[j]).url
    &&& (v.pending matches Some(u) ==> {
        &&& forall|i: int| 0 <= i < v.scanned.len() ==> (#[trigger] v.scanned[i]).url != u
        &&& forall|i: int| 0 <= i < v.ignored.len() ==> (#[trigger] v.ignored[i]).url != u
        &&& v.visited.contains(u)
        &&& !spec_excluded(u, v.policy)
    })
    &&& forall|i: int| 0 <= i < v.visited.len() ==> has_record_for(v, #[trigger] v.visited[i])
    &&& forall|i: int|
        0 <= i < v.scanned.len() ==> v.visited.contains((#[trigger] v.scanned[i]).url)
    &&& forall|i: int|
        0 <= i < v.ignored.len() ==> v.visited.contains((#[trigger] v.ignored[i]).url)
    &&& forall|i: int|
        0 <= i < v.ignored.len() ==> (#[trigger] v.ignored[i]).status is Ignored
            && spec_excluded(v.ignored[i].url, v.policy)
    &&& forall|i: int|
        0 <= i < v.scanned.len() ==> !((#[trigger] v.scanned[i]).status is Ignored)
            && !spec_excluded((#[trigger] v.scanned[i]).url, v.policy)
}

/// What one `step` call did.
pub enum Step {
    /// The frontier was empty; the crawl is done.
    Finished,
    /// The popped URL had already been taken up; nothing was recorded.
    Revisit,
    /// The popped URL is excluded by the policy and was recorded as ignored.
    Excluded,
    /// The popped URL is in scope: fetch it and report the outcome to
    /// `record_fetch`.
    Fetch(String),
}

/// The links a fetch outcome feeds back into the frontier: the page's
/// resolved anchor links on a success status, nothing otherwise.
pub open spec fn spec_new_links(outcome: OutcomeView, base: Seq<char>) -> Seq<Seq<char>> {
    match outcome {
        OutcomeView::Response { status, body } => if success_status(status) {
            spec_resolved_links(base, hrefs_of(body))
        } else {
            Seq::empty()
        },
        OutcomeView::Failed { .. } => Seq::empty(),
    }
}

/// Whether some string in `v` holds the characters of `s`.
fn contains_string(v: &Vec<String>, s: &str) -> (r: bool)
    ensures
        r == v.deep_view().contains(s@),
{
    let n = v.len();
    let mut i: usize = 0;
    while i < n
        invariant
            0 <= i <= n,
            n == v@.len(),
            forall|j: int| 0 <= j < i ==> v.deep_view()[j] != s@,
        decreases n - i,
    {
        if str_eq(v[i].as_str(), s) {
            proof {
                assert(v.deep_view()[i as int] == s@);
            }
            return true;
        }
        i = i + 1;
    }
    proof {
        assert(forall|j: int| 0 <= j < v.deep_view().len() ==> v.deep_view()[j] != s@);
    }
    false
}

/// The crawl invariant does not speak of the frontier: two states that
/// agree on everything else satisfy it together.
proof fn lemma_inv_frontier_irrelevant(v0: CrawlerView, v1: CrawlerView)
    requires
        crawler_inv(v0),
        v1.policy == v0.policy,
        v1.visited == v0.visited,
        v1.scanned == v0.scanned,
        v1.ignored == v0.ignored,
        v1.pending == v0.pending,
    ensures
        crawler_inv(v1),
{
    assert forall|i: int| 0 <= i < v1.visited.len() implies has_record_for(
        v1,
        #[trigger] v1.visited[i],
    ) by {
        assert(has_record_for(v0, v0.visited[i]));
    }
}

/// Taking up one unvisited URL preserves the crawl invariant, whether it
/// was recorded as ignored or handed out for fetching.
proof fn lemma_inv_after_take_up(v0: CrawlerView, v1: CrawlerView, u: Seq<char>)
    requires
        crawler_inv(v0),
        v0.pending is None,
        !v0.visited.contains(u),
        v1.policy == v0.policy,
        v1.visited == v0.visited.push(u),
        v1.scanned == v0.scanned,
        ({
            ||| (v1.ignored == v0.ignored.push(RecordView { url: u, status: StatusView::Ignored })
                && v1.pending is None && spec_excluded(u, v0.policy))
            ||| (v1.ignored == v0.ignored && v1.pending == Some(u) && !spec_excluded(u, v0.policy))
        }),
    ensures
        crawler_inv(v1),
{
    assert(v1.visited[v0.visited.len() as int] == u);
    assert(v1.visited.contains(u));
    assert forall|i: int| 0 <= i < v1.scanned.len() implies v1.visited.contains(
        (#[trigger] v1.scanned[i]).url,
    ) by {
        assert(v0.visited.contains(v0.scanned[i].url));
        let k = choose|k: int| 0 <= k < v0.visited.len() && v0.visited[k] == v0.scanned[i].url;
        assert(v1.visited[k] == v0.scanned[i].url);
    }
    assert forall|i: int| 0 <= i < v1.scanned.len() implies (#[trigger] v1.scanned[i]).url != u by {
        assert(v0.visited.contains(v0.scanned[i].url));
        if v0.scanned[i].url == u {
            assert(v0.visited.contains(u));
        }
    }
    assert forall|i: int| 0 <= i < v0.ignored.len() implies (#[trigger] v0.ignored[i]).url != u by {
        assert(v0.visited.contains(v0.ignored[i].url));
        if v0.ignored[i].url == u {
            assert(v0.visited.contains(u));
        }
    }
    assert forall|i: int| 0 <= i < v0.ignored.len() implies v1.visited.contains(
        (#[trigger] v0.ignored[i]).url,
    ) by {
        assert(v0.visited.contains(v0.ignored[i].url));
        let k = choose|k: int| 0 <= k < v0.visited.len() && v0.visited[k] == v0.ignored[i].url;
        assert(v1.visited[k] == v0.ignored[i].url);
    }
    if v1.pending is None {
        // u was recorded as ignored.
        assert(v1.ignored[v0.ignored.len() as int] == RecordView {
            url: u,
            status: StatusView::Ignored,
        });
        assert forall|i: int, j: int| 0 <= i < j < v1.ignored.len() implies (
        #[trigger] v1.ignored[i]).url != (#[trigger] v1.ignored[j]).url by {
            if j < v0.ignored.len() {
                assert(v0.ignored[i].url != v0.ignored[j].url);
            } else {
                assert(v1.ignored[j].url == u);
                assert(v0.ignored[i].url != u);
            }
        }
        assert forall|i: int| 0 <= i < v1.visited.len() implies has_record_for(
            v1,
            #[trigger] v1.visited[i],
        ) by {
            if i < v0.visited.len() {
                assert(has_record_for(v0, v0.visited[i]));
                if exists|k: int|
                    0 <= k < v0.ignored.len() && (#[trigger] v0.ignored[k]).url == v0.visited[i] {
                    let k = choose|k: int|
                        0 <= k < v0.ignored.len() && (#[trigger] v0.ignored[k]).url
                            == v0.visited[i];
                    assert(v1.ignored[k].url == v0.visited[i]);
                }
            } else {
                assert(v1.visited[i] == u);
                assert(v1.ignored[v0.ignored.len() as int].url == u);
            }
        }
    } else {
        // u is the fetch in flight.
        assert forall|i: int| 0 <= i < v1.visited.len() implies has_record_for(
            v1,
            #[trigger] v1.visited[i],
        ) by {
            if i < v0.visited.len() {
                assert(has_record_for(v0, v0.visited[i]));
            } else {
                assert(v1.visited[i] == u);
            }
        }
    }
}

/// Recording the in-flight fetch as a scanned record preserves the crawl
/// invariant.
proof fn lemma_inv_after_record(v0: CrawlerView, v1: CrawlerView, u: Seq<char>, s: StatusView)
    requires
        crawler_inv(v0),
        v0.pending == Some(u),
        !(s is Ignored),
        v1.policy == v0.policy,
        v1.visited == v0.visited,
        v1.scanned == v0.scanned.push(RecordView { url: u, status: s }),
        v1.ignored == v0.ignored,
        v1.pending is None,
    ensures
        crawler_inv(v1),
{
    assert(v1.scanned[v0.scanned.len() as int] == RecordView { url: u, status: s });
    assert forall|i: int, j: int| 0 <= i < j < v1.scanned.len() implies (
    #[trigger] v1.scanned[i]).url != (#[trigger] v1.scanned[j]).url by {
        if j < v0.scanned.len() {
            assert(v0.scanned[i].url != v0.scanned[j].url);
        } else {
            assert(v1.scanned[j].url == u);
            assert(v0.scanned[i].url != u);
        }
    }
    assert forall|i: int, j: int|
        0 <= i < v1.scanned.len() && 0 <= j < v1.ignored.len() implies (
    #[trigger] v1.scanned[i]).url != (#[trigger] v1.ignored[j]).url by {
        if i < v0.scanned.len() {
            assert(v0.scanned[i].url != v0.ignored[j].url);
        } else {
            assert(v1.scanned[i].url == u);
            assert(v0.ignored[j].url != u);
        }
    }
    assert forall|i: int| 0 <= i < v1.visited.len() implies has_record_for(
        v1,
        #[trigger] v1.visited[i],
    ) by {
        assert(has_record_for(v0, v0.visited[i]));
        if exists|k: int|
            0 <= k < v0.scanned.len() && (#[trigger] v0.scanned[k]).url == v0.visited[i] {
            let k = choose|k: int|
                0 <= k < v0.scanned.len() && (#[trigger] v0.scanned[k]).url == v0.visited[i];
            assert(v1.scanned[k].url == v0.visited[i]);
        } else if v0.pending == Some(v0.visited[i]) {
            assert(v1.scanned[v0.scanned.len() as int].url == v0.visited[i]);
        }
    }
}

impl Crawler {
    /// The crawl invariant, as it applies to this driver.
    pub open spec fn inv(&self) -> bool {
        crawler_inv(self@)
    }

    /// A fresh crawl under `policy`: the frontier holds the root URL alone,
    /// and nothing has been visited or recorded.
    pub fn new(policy: CrawlPolicy) -> (r: Crawler)
        ensures
            r@.policy == policy@,
            r@.frontier == seq![policy@.root_text],
            r@.visited == Seq::<Seq<char>>::empty(),
            r@.scanned == Seq::<RecordView>::empty(),
            r@.ignored == Seq::<RecordView>::empty(),
            r@.pending is None,
            r.inv(),
    {
        let root = policy.root.text.clone();
        let mut frontier: Vec<String> = Vec::new();
        frontier.push(root);
        let r = Crawler {
            policy,
            frontier,
            visited: Vec::new(),
            scanned: Vec::new(),
            ignored: Vec::new(),
            pending: None,
        };
        proof {
            assert(r@.frontier =~= seq![r.policy@.root_text]);
            assert(r@.visited =~= Seq::<Seq<char>>::empty());
            assert(r@.scanned =~= Seq::<RecordView>::empty());
            assert(r@.ignored =~= Seq::<RecordView>::empty());
        }
        r
    }

    /// A fresh crawl resolved from a configuration and a root URL.  Fails
    /// exactly when the root URL does not parse, before anything is
    /// visited.
    pub fn from_config(base_url: &str, config: &Config) -> (r: Result<Crawler, MalformedUrl>)
        ensures
            r is Ok <==> url_ok(base_url@),
            r matches Ok(c) ==> {
                &&& c@.policy == spec_policy_of(base_url@, config@)
                &&& wf_policy(c@.policy)
                &&& c@.frontier == seq![base_url@]
                &&& c@.visited == Seq::<Seq<char>>::empty()
                &&& c@.scanned == Seq::<RecordView>::empty()
                &&& c@.ignored == Seq::<RecordView>::empty()
                &&& c@.pending is None
                &&& c.inv()
            },
    {
        match CrawlPolicy::from_config(base_url, config) {
            Ok(policy) => Ok(Crawler::new(policy)),
            Err(e) => Err(e),
        }
    }

    /// Take up the next frontier entry: finish when the frontier is empty,
    /// collapse an already-visited duplicate, record a policy-excluded URL
    /// as ignored, or hand the URL out for fetching.
    pub fn step(&mut self) -> (r: Step)
        requires
            old(self).inv(),
            old(self)@.pending is None,
        ensures
            final(self).inv(),
            final(self)@.policy == old(self)@.policy,
            r is Finished ==> old(self)@.frontier.len() == 0 && final(self)@ == old(self)@,
            !(r is Finished) ==> old(self)@.frontier.len() > 0 && final(self)@.frontier == old(
                self,
            )@.frontier.drop_last(),
            r is Revisit ==> {
                &&& old(self)@.visited.contains(old(self)@.frontier.last())
                &&& final(self)@.visited == old(self)@.visited
                &&& final(self)@.scanned == old(self)@.scanned
                &&& final(self)@.ignored == old(self)@.ignored
                &&& final(self)@.pending is None
            },
            r is Excluded ==> {
                &&& !old(self)@.visited.contains(old(self)@.frontier.last())
                &&& spec_excluded(old(self)@.frontier.last(), old(self)@.policy)
                &&& final(self)@.visited == old(self)@.visited.push(old(self)@.frontier.last())
                &&& final(self)@.scanned == old(self)@.scanned
                &&& final(self)@.ignored == old(self)@.ignored.push(
                    RecordView { url: old(self)@.frontier.last(), status: StatusView::Ignored },
                )
                &&& final(self)@.pending is None
            },
            r matches Step::Fetch(u) ==> {
                &&& u@ == old(self)@.frontier.last()
                &&& !old(self)@.visited.contains(u@)
                &&& !spec_excluded(u@, old(self)@.policy)
                &&& final(self)@.visited == old(self)@.visited.push(u@)
                &&& final(self)@.scanned == old(self)@.scanned
                &&& final(self)@.ignored == old(self)@.ignored
                &&& final(self)@.pending == Some(u@)
            },
    {
        let popped = self.frontier.pop();
        let url = match popped {
            None => {
                proof {
                    assert(self@ =~= old(self)@);
                }
                return Step::Finished;
            },
            Some(u) => u,
        };
        proof {
            assert(self@.frontier =~= old(self)@.frontier.drop_last());
        }
        if contains_string(&self.visited, url.as_str()) {
            proof {
                lemma_inv_frontier_irrelevant(old(self)@, self@);
            }
            return Step::Revisit;
        }
        self.visited.push(url.clone());
        proof {
            assert(self@.visited =~= old(self)@.visited.push(url@));
        }
        if self.policy.is_excluded(url.as_str()) {
            self.ignored.push(LinkInfo { url, status: LinkStatus::Ignored });
            proof {
                assert(self@.ignored =~= old(self)@.ignored.push(
                    RecordView { url: old(self)@.frontier.last(), status: StatusView::Ignored },
                ));
                lemma_inv_after_take_up(old(self)@, self@, old(self)@.frontier.last());
            }
            Step::Excluded
        } else {
            self.pending = Some(url.clone());
            proof {
                lemma_inv_after_take_up(old(self)@, self@, url@);
            }
            Step::Fetch(url)
        }
    }

    /// Report the outcome of fetching the URL handed out by the last
    /// `step`.  The outcome is classified into exactly one scanned record,
    /// and on a success status the page's resolved links join the frontier;
    /// a failed fetch never ends the crawl.
    pub fn record_fetch(&mut self, outcome: FetchOutcome)
        requires
            old(self).inv(),
            old(self)@.pending is Some,
        ensures
            final(self).inv(),
            final(self)@.policy == old(self)@.policy,
            final(self)@.visited == old(self)@.visited,
            final(self)@.ignored == old(self)@.ignored,
            final(self)@.pending is None,
            final(self)@.scanned == old(self)@.scanned.push(
                RecordView {
                    url: old(self)@.pending.unwrap(),
                    status: spec_classify(outcome@),
                },
            ),
            final(self)@.frontier == old(self)@.frontier + spec_new_links(
                outcome@,
                old(self)@.pending.unwrap(),
            ),
    {
        let url = self.pending.take().unwrap();
        let status = classify_outcome(&outcome);
        proof {
            assert(!(spec_classify(outcome@) is Ignored));
        }
        let ghost u: Seq<char> = url@;
        self.scanned.push(LinkInfo { url: url.clone(), status });
        proof {
            assert(self@.scanned =~= old(self)@.scanned.push(
                RecordView { url: u, status: spec_classify(outcome@) },
            ));
            lemma_inv_after_record(old(self)@, self@, u, spec_classify(outcome@));
        }
        match outcome {
            FetchOutcome::Response { status: code, body } => {
                if 200 <= code && code < 400 {
                    let ghost v_before = self@;
                    extract_links_from_html(body.as_str(), url.as_str(), &mut self.frontier);
                    proof {
                        assert(crawler_inv(self@)) by {
                            assert(self@ =~= CrawlerView { frontier: self@.frontier, ..v_before });
                        }
                    }
                } else {
                    proof {
                        assert(self@.frontier =~= old(self)@.frontier + spec_new_links(
                            outcome@,
                            u,
                        ));
                    }
                }
            },
            FetchOutcome::Failed { .. } => {
                proof {
                    assert(self@.frontier =~= old(self)@.frontier + spec_new_links(outcome@, u));
                }
            },
        }
    }

    /// The records of the URLs that were fetched or failed, in the order
    /// they were taken up.
    pub fn scanned_links(&self) -> (r: &Vec<LinkInfo>)
        ensures
            r.deep_view() == self@.scanned,
    {
        &self.scanned
    }

    /// The records of the URLs the policy excluded, in the order they were
    /// taken up.
    pub fn ignored_links(&self) -> (r: &Vec<LinkInfo>)
        ensures
            r.deep_view() == self@.ignored,
    {
        &self.ignored
    }

    /// Finish the crawl, yielding the scanned and the ignored records.
    pub fn into_results(self) -> (r: (Vec<LinkInfo>, Vec<LinkInfo>))
        ensures
            r.0.deep_view() == self@.scanned,
            r.1.deep_view() == self@.ignored,
    {
        (self.scanned, self.ignored)
    }
}

/// The records of a crawl, scanned then ignored, as one sequence.
pub open spec fn crawl_records(v: CrawlerView) -> Seq<RecordView> {
    v.scanned + v.ignored
}

/// No duplicate visits: across the scanned and ignored records together,
/// two distinct records never carry the same URL, in any crawl state that
/// satisfies the invariant.
pub proof fn lemma_no_duplicate_visits(c: &Crawler, i: int, j: int)
    requires
        c.inv(),
        0 <= i < crawl_records(c@).len(),
        0 <= j < crawl_records(c@).len(),
        i != j,
    ensures
        crawl_records(c@)[i].url != crawl_records(c@)[j].url,
{
    let v = c@;
    let n = v.scanned.len() as int;
    if i < n && j < n {
        assert(crawl_records(v)[i] == v.scanned[i]);
        assert(crawl_records(v)[j] == v.scanned[j]);
    } else if i < n {
        assert(crawl_records(v)[i] == v.scanned[i]);
        assert(crawl_records(v)[j] == v.ignored[j - n]);
    } else if j < n {
        assert(crawl_records(v)[i] == v.ignored[i - n]);
        assert(crawl_records(v)[j] == v.scanned[j]);
    } else {
        assert(crawl_records(v)[i] == v.ignored[i - n]);
        assert(crawl_records(v)[j] == v.ignored[j - n]);
    }
}

/// Partition completeness: every URL ever taken up from the frontier is
/// accounted for by exactly one record (or the one fetch in flight), placed
/// among the ignored records exactly when the scope policy excludes it and
/// then with status `Ignored`, and among the scanned records otherwise,
/// never with status `Ignored`.
pub proof fn lemma_partition_completeness(c: &Crawler)
    requires
        c.inv(),
    ensures
        forall|i: int|
            0 <= i < c@.visited.len() ==> has_record_for(c@, #[trigger] c@.visited[i]),
        forall|i: int|
            0 <= i < c@.scanned.len() ==> c@.visited.contains((#[trigger] c@.scanned[i]).url),
        forall|i: int|
            0 <= i < c@.ignored.len() ==> c@.visited.contains((#[trigger] c@.ignored[i]).url),
        forall|i: int|
            0 <= i < c@.ignored.len() ==> (#[trigger] c@.ignored[i]).status is Ignored
                && spec_excluded(c@.ignored[i].url, c@.policy),
        forall|i: int|
            0 <= i < c@.scanned.len() ==> !((#[trigger] c@.scanned[i]).status is Ignored)
                && !spec_excluded((#[trigger] c@.scanned[i]).url, c@.policy),
{
}

} // verus!
