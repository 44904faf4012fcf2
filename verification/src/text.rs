//! String predicates and helpers the scope policy is built from: prefix and
//! suffix tests, trimming of leading slashes, and decimal rendering of HTTP
//! status codes.  All of them are verified against direct sequence
//! specifications.

use vstd::prelude::*;

verus! {

/// `p` is an initial segment of `s`.
pub open spec fn has_prefix(s: Seq<char>, p: Seq<char>) -> bool {
    p.len() <= s.len() && s.subrange(0, p.len() as int) == p
}

/// `x` is a final segment of `s`.
pub open spec fn has_suffix(s: Seq<char>, x: Seq<char>) -> bool {
    x.len() <= s.len() && s.subrange(s.len() - x.len(), s.len() as int) == x
}

/// `s` with every leading `'/'` removed.
pub open spec fn trim_slashes(s: Seq<char>) -> Seq<char>
    decreases s.len(),
{
    if s.len() > 0 && s[0] == '/' {
        trim_slashes(s.subrange(1, s.len() as int))
    } else {
        s
    }
}

/// Whether two string slices hold the same characters.
pub fn str_eq(a: &str, b: &str) -> (r: bool)
    ensures
        r == (a@ == b@),
{
    let n: usize = a.unicode_len();
    let m: usize = b.unicode_len();
    if n != m {
        return false;
    }
    let mut i: usize = 0;
    while i < n
        invariant
            0 <= i <= n,
            n == a@.len(),
            n == b@.len(),
            forall|j: int| 0 <= j < i ==> a@[j] == b@[j],
        decreases n - i,
    {
        if a.get_char(i) != b.get_char(i) {
            return false;
        }
        i = i + 1;
    }
    proof {
        assert(a@ =~= b@);
    }
    true
}

/// Whether `s` starts with `p`.
pub fn str_has_prefix(s: &str, p: &str) -> (r: bool)
    ensures
        r == has_prefix(s@, p@),
{
    let n: usize = p.unicode_len();
    let m: usize = s.unicode_len();
    if n > m {
        return false;
    }
    let mut i: usize = 0;
    while i < n
        invariant
            0 <= i <= n,
            n == p@.len(),
            m == s@.len(),
            n <= m,
            forall|j: int| 0 <= j < i ==> s@[j] == p@[j],
        decreases n - i,
    {
        if s.get_char(i) != p.get_char(i) {
            proof {
                assert(s@.subrange(0, n as int)[i as int] == s@[i as int]);
            }
            return false;
        }
        i = i + 1;
    }
    proof {
        assert(s@.subrange(0, n as int) =~= p@);
    }
    true
}

/// Whether `s` ends with `x`.
pub fn str_has_suffix(s: &str, x: &str) -> (r: bool)
    ensures
        r == has_suffix(s@, x@),
{
    let n: usize = x.unicode_len();
    let m: usize = s.unicode_len();
    if n > m {
        return false;
    }
    let off: usize = m - n;
    let mut i: usize = 0;
    while i < n
        invariant
            0 <= i <= n,
            n == x@.len(),
            m == s@.len(),
            off == m - n,
            forall|j: int| 0 <= j < i ==> s@[off + j] == x@[j],
        decreases n - i,
    {
        if s.get_char(off + i) != x.get_char(i) {
            proof {
                assert(s@.subrange(off as int, m as int)[i as int] == s@[off + i]);
            }
            return false;
        }
        i = i + 1;
    }
    proof {
        assert(s@.subrange(off as int, m as int) =~= x@);
    }
    true
}

/// Trimming distributes over the position of the first character that is not
/// a slash: the trimmed string is the tail of `s` from that position on.
proof fn lemma_trim_slashes_at(s: Seq<char>, i: int)
    requires
        0 <= i <= s.len(),
        forall|j: int| 0 <= j < i ==> s[j] == '/',
        i < s.len() ==> s[i] != '/',
    ensures
        trim_slashes(s) == s.subrange(i, s.len() as int),
    decreases i,
{
    if i == 0 {
        if s.len() > 0 && s[0] == '/' {
            assert(false);
        }
        assert(s.subrange(0, s.len() as int) =~= s);
    } else {
        let t = s.subrange(1, s.len() as int);
        lemma_trim_slashes_at(t, i - 1);
        assert(t.subrange(i - 1, t.len() as int) =~= s.subrange(i, s.len() as int));
    }
}

/// The tail of `s` with every leading `'/'` removed.
pub fn trim_leading_slashes(s: &str) -> (r: &str)
    ensures
        r@ == trim_slashes(s@),
{
    let m: usize = s.unicode_len();
    let mut i: usize = 0;
    while i < m
        invariant
            0 <= i <= m,
            m == s@.len(),
            forall|j: int| 0 <= j < i ==> s@[j] == '/',
        decreases m - i,
    {
        if s.get_char(i) != '/' {
            proof {
                lemma_trim_slashes_at(s@, i as int);
            }
            return s.substring_char(i, m);
        }
        i = i + 1;
    }
    proof {
        lemma_trim_slashes_at(s@, m as int);
    }
    s.substring_char(m, m)
}

/// A copy of a vector of strings, holding the same character sequences.
pub fn clone_string_vec(v: &Vec<String>) -> (r: Vec<String>)
    ensures
        r.deep_view() == v.deep_view(),
{
    let n = v.len();
    let mut r: Vec<String> = Vec::new();
    let mut i: usize = 0;
    while i < n
        invariant
            0 <= i <= n,
            n == v@.len(),
            r@.len() == i,
            forall|j: int| 0 <= j < i ==> r.deep_view()[j] == v.deep_view()[j],
        decreases n - i,
    {
        r.push(v[i].clone());
        i = i + 1;
    }
    proof {
        assert(r.deep_view() =~= v.deep_view());
    }
    r
}

/// The decimal digit character for `n`.
pub open spec fn digit_char(n: nat) -> char {
    if n == 0 {
        '0'
    } else if n == 1 {
        '1'
    } else if n == 2 {
        '2'
    } else if n == 3 {
        '3'
    } else if n == 4 {
        '4'
    } else if n == 5 {
        '5'
    } else if n == 6 {
        '6'
    } else if n == 7 {
        '7'
    } else if n == 8 {
        '8'
    } else {
        '9'
    }
}

/// The decimal rendering of `n`, most significant digit first.
pub open spec fn decimal_of(n: nat) -> Seq<char>
    decreases n,
{
    if n < 10 {
        seq![digit_char(n)]
    } else {
        decimal_of(n / 10).push(digit_char(n % 10))
    }
}

/// A one-character string slice for the digit `n`.
fn digit_str(n: u16) -> (r: &'static str)
    requires
        n < 10,
    ensures
        r@ =~= seq![digit_char(n as nat)],
{
    proof {
        reveal_strlit("0");
        reveal_strlit("1");
        reveal_strlit("2");
        reveal_strlit("3");
        reveal_strlit("4");
        reveal_strlit("5");
        reveal_strlit("6");
        reveal_strlit("7");
        reveal_strlit("8");
        reveal_strlit("9");
    }
    if n == 0 {
        "0"
    } else if n == 1 {
        "1"
    } else if n == 2 {
        "2"
    } else if n == 3 {
        "3"
    } else if n == 4 {
        "4"
    } else if n == 5 {
        "5"
    } else if n == 6 {
        "6"
    } else if n == 7 {
        "7"
    } else if n == 8 {
        "8"
    } else {
        "9"
    }
}

/// The decimal rendering of a status code, as a string.
pub fn decimal_string(n: u16) -> (r: String)
    ensures
        r@ == decimal_of(n as nat),
    decreases n,
{
    if n < 10 {
        String::from_str(digit_str(n))
    } else {
        let high = decimal_string(n / 10);
        let r = high.concat(digit_str(n % 10));
        proof {
            assert(r@ =~= decimal_of((n / 10) as nat).push(digit_char((n % 10) as nat)));
        }
        r
    }
}

} // verus!
