//! Regular-expression filtering of candidate URLs.
//!
//! Matching is delegated to the `regex` crate.  Whether a pattern compiles
//! and whether it matches a given text are fixed functions of the strings
//! involved, so both are named by uninterpreted spec functions.

use vstd::prelude::*;

verus! {

/// Whether `regex::Regex::new` accepts `pat` as a valid pattern.
pub uninterp spec fn regex_compiles(pat: Seq<char>) -> bool;

/// Whether the compiled pattern `pat` matches somewhere in `text`.
pub uninterp spec fn regex_matches(pat: Seq<char>, text: Seq<char>) -> bool;

/// Relies on `regex::Regex::new` and `regex::Regex::is_match`: whether a
/// pattern compiles, and whether it then matches a text, depend on the two
/// strings alone.
#[verifier::external_body]
fn compile_and_match(pat: &str, text: &str) -> (r: Option<bool>)
    ensures
        r is Some <==> regex_compiles(pat@),
        r matches Some(m) ==> m == regex_matches(pat@, text@),
{
    match regex::Regex::new(pat) {
        Ok(re) => Some(re.is_match(text)),
        Err(_) => None,
    }
}

/// Some pattern in `pats` compiles and matches `text`; patterns that fail to
/// compile are skipped.
pub open spec fn spec_any_match(pats: Seq<Seq<char>>, text: Seq<char>) -> bool {
    exists|i: int|
        0 <= i < pats.len() && regex_compiles(pats[i]) && regex_matches(pats[i], text)
}

/// Whether any pattern in `pats` compiles and matches `text`, trying the
/// patterns in list order and skipping any that fails to compile.
pub fn any_pattern_matches(pats: &Vec<String>, text: &str) -> (r: bool)
    ensures
        r == spec_any_match(pats.deep_view(), text@),
{
    let n = pats.len();
    let mut i: usize = 0;
    while i < n
        invariant
            0 <= i <= n,
            n == pats@.len(),
            forall|j: int|
                0 <= j < i ==> !(regex_compiles(pats.deep_view()[j]) && regex_matches(
                    pats.deep_view()[j],
                    text@,
                )),
        decreases n - i,
    {
        match compile_and_match(pats[i].as_str(), text) {
            Some(true) => {
                proof {
                    assert(regex_compiles(pats.deep_view()[i as int]) && regex_matches(
                        pats.deep_view()[i as int],
                        text@,
                    ));
                }
                return true;
            },
            _ => {},
        }
        i = i + 1;
    }
    false
}

} // verus!
