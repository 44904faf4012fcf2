//! The scope policy: which candidate URLs a crawl is allowed to visit.
//!
//! A candidate is excluded when, in this order: it fails to parse; it is
//! outside the root's scope (neither sharing the root's origin nor carrying
//! the root URL as a string prefix); its host ends with an ignored domain;
//! it matches an ignore pattern; its host ends with a forbidden domain; or
//! it lies under an ignored child path of the root.  Exclusion is a pure
//! function of the candidate and the policy, stated by `spec_excluded`.

use crate::config::Config;
use crate::patterns::spec_any_match;
use crate::patterns::any_pattern_matches;
use crate::text::clone_string_vec;
use crate::text::has_prefix;
use crate::text::has_suffix;
use crate::text::str_eq;
use crate::text::str_has_prefix;
use crate::text::str_has_suffix;
use crate::text::trim_leading_slashes;
use crate::text::trim_slashes;
use crate::urls::MalformedUrl;
use crate::urls::ParsedUrl;
use crate::urls::parse_url;
use crate::urls::url_host;
use crate::urls::url_ok;
use crate::urls::url_origin;
use crate::urls::url_path;
use vstd::prelude::*;

verus! {

/// The mathematical value of a `CrawlPolicy`: the root URL with its cached
/// components, and the configured lists.
#[verifier::ext_equal]
pub ghost struct PolicyView {
    pub root_text: Seq<char>,
    pub root_host: Seq<char>,
    pub root_path: Seq<char>,
    pub root_origin: Seq<char>,
    pub ignore_domains: Seq<Seq<char>>,
    pub ignore_regex: Seq<Seq<char>>,
    pub forbidden_domains: Seq<Seq<char>>,
    pub ignored_childs: Seq<Seq<char>>,
    pub timeout_secs: u64,
}

/// The scope anchor and exclusion lists for one crawl, read-only for the
/// crawl's duration.  The root's components are parsed once and cached.
pub struct CrawlPolicy {
    pub root: ParsedUrl,
    pub ignore_domains: Vec<String>,
    pub ignore_regex: Vec<String>,
    pub forbidden_domains: Vec<String>,
    pub ignored_childs: Vec<String>,
    pub timeout_secs: u64,
}

impl View for CrawlPolicy {
    type V = PolicyView;

    open spec fn view(&self) -> PolicyView {
        PolicyView {
            root_text: self.root.text@,
            root_host: self.root.host@,
            root_path: self.root.path@,
            root_origin: self.root.origin@,
            ignore_domains: self.ignore_domains.deep_view(),
            ignore_regex: self.ignore_regex.deep_view(),
            forbidden_domains: self.forbidden_domains.deep_view(),
            ignored_childs: self.ignored_childs.deep_view(),
            timeout_secs: self.timeout_secs,
        }
    }
}

/// The policy's cached root components are exactly what its root text
/// parses to.
pub open spec fn wf_policy(p: PolicyView) -> bool {
    &&& url_ok(p.root_text)
    &&& p.root_host == url_host(p.root_text)
    &&& p.root_path == url_path(p.root_text)
    &&& p.root_origin == url_origin(p.root_text)
}

/// The URL-string prefix that an ignored child path covers: the root's
/// origin, the root's path, a separating slash when the root path does not
/// already end in one, and the child with its leading slashes trimmed.
pub open spec fn full_child_prefix(
    origin: Seq<char>,
    root_path: Seq<char>,
    child: Seq<char>,
) -> Seq<char> {
    if root_path.len() > 0 && root_path.last() == '/' {
        origin + root_path + trim_slashes(child)
    } else {
        origin + root_path + seq!['/'] + trim_slashes(child)
    }
}

/// Whether the scope policy excludes the candidate `url`, by the six rules
/// in order: parse failure; out of scope (differing origin and not a string
/// extension of the root); ignored domain suffix; ignore pattern match;
/// forbidden domain suffix; ignored child path prefix.
pub open spec fn spec_excluded(url: Seq<char>, p: PolicyView) -> bool {
    ||| !url_ok(url)
    ||| (url_origin(url) != p.root_origin && !has_prefix(url, p.root_text))
    ||| (exists|i: int|
        0 <= i < p.ignore_domains.len() && has_suffix(url_host(url), #[trigger] p.ignore_domains[i]))
    ||| spec_any_match(p.ignore_regex, url)
    ||| (exists|i: int|
        0 <= i < p.forbidden_domains.len() && has_suffix(
            url_host(url),
            #[trigger] p.forbidden_domains[i],
        ))
    ||| (exists|i: int|
        0 <= i < p.ignored_childs.len() && has_prefix(
            url,
            full_child_prefix(p.root_origin, p.root_path, #[trigger] p.ignored_childs[i]),
        ))
}

/// Scope exclusion is a pure function of the candidate and the policy: once
/// a pair is excluded it stays excluded, no matter when during a crawl, or
/// in which visit order, the question is asked.
pub proof fn lemma_exclusion_stable(u1: Seq<char>, p1: PolicyView, u2: Seq<char>, p2: PolicyView)
    requires
        u1 == u2,
        p1 == p2,
    ensures
        spec_excluded(u1, p1) == spec_excluded(u2, p2),
{
}

/// Whether `host` ends with any of the listed domain suffixes.
fn any_domain_suffix(domains: &Vec<String>, host: &str) -> (r: bool)
    ensures
        r == exists|i: int|
            0 <= i < domains.deep_view().len() && has_suffix(host@, #[trigger] domains.deep_view()[i]),
{
    let n = domains.len();
    let mut i: usize = 0;
    while i < n
        invariant
            0 <= i <= n,
            n == domains@.len(),
            forall|j: int| 0 <= j < i ==> !has_suffix(host@, #[trigger] domains.deep_view()[j]),
        decreases n - i,
    {
        if str_has_suffix(host, domains[i].as_str()) {
            proof {
                assert(has_suffix(host@, domains.deep_view()[i as int]));
            }
            return true;
        }
        i = i + 1;
    }
    false
}

/// Whether `url` starts with the full ignored-child prefix of any listed
/// child path.
fn any_child_prefix(origin: &String, root_path: &String, childs: &Vec<String>, url: &str) -> (r:
    bool)
    ensures
        r == exists|i: int|
            0 <= i < childs.deep_view().len() && has_prefix(
                url@,
                full_child_prefix(origin@, root_path@, #[trigger] childs.deep_view()[i]),
            ),
{
    let root_ends_in_slash = str_has_suffix(root_path.as_str(), "/");
    proof {
        reveal_strlit("/");
        let s = root_path@;
        if s.len() > 0 {
            assert(s.subrange(s.len() - 1, s.len() as int) =~= seq![s.last()]);
            if s.last() == '/' {
                assert(seq![s.last()] =~= "/"@);
            }
            if s.subrange(s.len() - 1, s.len() as int) == "/"@ {
                assert(s.last() == "/"@[0]);
            }
        }
        assert(has_suffix(s, "/"@) <==> (s.len() > 0 && s.last() == '/'));
    }
    let n = childs.len();
    let mut i: usize = 0;
    while i < n
        invariant
            0 <= i <= n,
            n == childs@.len(),
            root_ends_in_slash == (root_path@.len() > 0 && root_path@.last() == '/'),
            forall|j: int|
                0 <= j < i ==> !has_prefix(
                    url@,
                    full_child_prefix(origin@, root_path@, #[trigger] childs.deep_view()[j]),
                ),
        decreases n - i,
    {
        let trimmed = trim_leading_slashes(childs[i].as_str());
        let mut full = origin.clone();
        full.append(root_path.as_str());
        if !root_ends_in_slash {
            full.append("/");
        }
        full.append(trimmed);
        proof {
            reveal_strlit("/");
            assert("/"@ =~= seq!['/']);
            assert(full@ == full_child_prefix(origin@, root_path@, childs.deep_view()[i as int]));
        }
        if str_has_prefix(url, full.as_str()) {
            proof {
                assert(has_prefix(
                    url@,
                    full_child_prefix(origin@, root_path@, childs.deep_view()[i as int]),
                ));
            }
            return true;
        }
        i = i + 1;
    }
    false
}

impl CrawlPolicy {
    /// Decide whether the policy excludes the candidate `url`, checking the
    /// six rules in order and stopping at the first that applies.
    pub fn is_excluded(&self, url: &str) -> (r: bool)
        ensures
            r == spec_excluded(url@, self@),
    {
        let parsed = match parse_url(url) {
            Ok(p) => p,
            Err(_) => {
                return true;
            },
        };
        let origin_differs = !str_eq(parsed.origin.as_str(), self.root.origin.as_str());
        if origin_differs && !str_has_prefix(url, self.root.text.as_str()) {
            return true;
        }
        if any_domain_suffix(&self.ignore_domains, parsed.host.as_str()) {
            proof {
                let i = choose|i: int|
                    0 <= i < self.ignore_domains.deep_view().len() && has_suffix(
                        parsed.host@,
                        #[trigger] self.ignore_domains.deep_view()[i],
                    );
                assert(has_suffix(url_host(url@), self@.ignore_domains[i]));
            }
            return true;
        }
        if any_pattern_matches(&self.ignore_regex, url) {
            return true;
        }
        if any_domain_suffix(&self.forbidden_domains, parsed.host.as_str()) {
            proof {
                let i = choose|i: int|
                    0 <= i < self.forbidden_domains.deep_view().len() && has_suffix(
                        parsed.host@,
                        #[trigger] self.forbidden_domains.deep_view()[i],
                    );
                assert(has_suffix(url_host(url@), self@.forbidden_domains[i]));
            }
            return true;
        }
        if any_child_prefix(&self.root.origin, &self.root.path, &self.ignored_childs, url) {
            return true;
        }
        false
    }
}

/// The policy that a configuration and a root URL resolve to: the root's
/// parsed components, each absent list taken as empty, and the timeout
/// defaulted to 30 seconds.
pub open spec fn spec_policy_of(base: Seq<char>, c: crate::config::ConfigView) -> PolicyView {
    PolicyView {
        root_text: base,
        root_host: url_host(base),
        root_path: url_path(base),
        root_origin: url_origin(base),
        ignore_domains: match c.ignore {
            Some(ig) => match ig.domains {
                Some(d) => d,
                None => Seq::empty(),
            },
            None => Seq::empty(),
        },
        ignore_regex: match c.ignore {
            Some(ig) => match ig.regex {
                Some(r) => r,
                None => Seq::empty(),
            },
            None => Seq::empty(),
        },
        forbidden_domains: match c.forbidden_domains {
            Some(d) => d,
            None => Seq::empty(),
        },
        ignored_childs: match c.ignored_childs {
            Some(p) => p,
            None => Seq::empty(),
        },
        timeout_secs: match c.timeout {
            Some(t) => t,
            None => 30,
        },
    }
}

impl CrawlPolicy {
    /// Resolve a configuration and a root URL into a policy.  Fails exactly
    /// when the root URL does not parse; that failure is fatal and must be
    /// raised before any URL is processed.
    pub fn from_config(base_url: &str, config: &Config) -> (r: Result<CrawlPolicy, MalformedUrl>)
        ensures
            r is Ok <==> url_ok(base_url@),
            r matches Ok(p) ==> p@ == spec_policy_of(base_url@, config@) && wf_policy(p@),
    {
        let root = match parse_url(base_url) {
            Ok(p) => p,
            Err(e) => {
                return Err(e);
            },
        };
        let ignore_domains = match &config.ignore {
            Some(ig) => match &ig.domains {
                Some(d) => clone_string_vec(d),
                None => Vec::new(),
            },
            None => Vec::new(),
        };
        let ignore_regex = match &config.ignore {
            Some(ig) => match &ig.regex {
                Some(r) => clone_string_vec(r),
                None => Vec::new(),
            },
            None => Vec::new(),
        };
        let forbidden_domains = match &config.forbidden_domains {
            Some(d) => clone_string_vec(d),
            None => Vec::new(),
        };
        let ignored_childs = match &config.ignored_childs {
            Some(p) => clone_string_vec(p),
            None => Vec::new(),
        };
        let timeout_secs = match config.timeout {
            Some(t) => t,
            None => 30,
        };
        let policy = CrawlPolicy {
            root,
            ignore_domains,
            ignore_regex,
            forbidden_domains,
            ignored_childs,
            timeout_secs,
        };
        proof {
            assert(policy@ =~= spec_policy_of(base_url@, config@));
        }
        Ok(policy)
    }
}

/// Decide whether a candidate URL should be ignored under a configuration
/// and a root URL, as one call: `None` exactly when the root URL itself does
/// not parse, otherwise the policy's exclusion decision.
pub fn should_ignore_url(url: &str, config: &Config, base_url: &str) -> (r: Option<bool>)
    ensures
        r is Some <==> url_ok(base_url@),
        r matches Some(b) ==> b == spec_excluded(url@, spec_policy_of(base_url@, config@)),
{
    match CrawlPolicy::from_config(base_url, config) {
        Ok(policy) => Some(policy.is_excluded(url)),
        Err(_) => None,
    }
}

} // verus!
