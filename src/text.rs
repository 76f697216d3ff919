//! Character-level text predicates used by target resolution.
use vstd::prelude::*;

verus! {

/// `s` begins with `p`, character by character.
pub open spec fn starts_with(s: Seq<char>, p: Seq<char>) -> bool
    decreases p.len(),
{
    p.len() == 0 || (s.len() > 0 && s[0] == p[0] && starts_with(s.drop_first(), p.drop_first()))
}

/// `p` occurs somewhere in `s`.
pub open spec fn has_infix(s: Seq<char>, p: Seq<char>) -> bool
    decreases s.len(),
{
    starts_with(s, p) || (s.len() > 0 && has_infix(s.drop_first(), p))
}

/// `s` ends with `p`.
pub open spec fn ends_with(s: Seq<char>, p: Seq<char>) -> bool {
    p.len() <= s.len() && s.subrange(s.len() - p.len(), s.len() as int) == p
}

/// Two strings hold the same characters.
pub fn same_text(a: &str, b: &str) -> (r: bool)
    ensures
        r == (a@ == b@),
{
    let n = a.unicode_len();
    if n != b.unicode_len() {
        return false;
    }
    let mut i: usize = 0;
    while i < n
        invariant
            n == a@.len(),
            n == b@.len(),
            i <= n,
            forall|j: int| 0 <= j < i ==> a@[j] == b@[j],
        decreases n - i,
    {
        if a.get_char(i) != b.get_char(i) {
            return false;
        }
        i = i + 1;
    }
    assert(a@ =~= b@);
    true
}

/// Whether `p` occurs in `s` at character index `i`.
fn occurs_at(s: &str, p: &str, i: usize) -> (r: bool)
    requires
        i <= s@.len(),
    ensures
        r == starts_with(s@.subrange(i as int, s@.len() as int), p@),
{
    let n = s.unicode_len();
    let m = p.unicode_len();
    let mut j: usize = 0;
    assert(p@.subrange(0, m as int) =~= p@);
    while j < m
        invariant
            n == s@.len(),
            m == p@.len(),
            i <= n,
            j <= m,
            i + j <= n,
            starts_with(s@.subrange(i as int, n as int), p@) == starts_with(
                s@.subrange(i + j, n as int),
                p@.subrange(j as int, m as int),
            ),
        decreases m - j,
    {
        if j >= n - i {
            return false;
        }
        let k = i + j;
        if s.get_char(k) != p.get_char(j) {
            return false;
        }
        proof {
            assert(s@.subrange(k as int, n as int).drop_first() =~= s@.subrange(k + 1, n as int));
            assert(p@.subrange(j as int, m as int).drop_first() =~= p@.subrange(j + 1, m as int));
        }
        j = j + 1;
    }
    true
}

/// Whether `p` occurs anywhere in `s`.
pub fn contains_text(s: &str, p: &str) -> (r: bool)
    ensures
        r == has_infix(s@, p@),
{
    let n = s.unicode_len();
    let mut i: usize = 0;
    assert(s@.subrange(0, n as int) =~= s@);
    while i <= n
        invariant
            n == s@.len(),
            i <= n,
            has_infix(s@, p@) == has_infix(s@.subrange(i as int, n as int), p@),
        decreases n - i,
    {
        if occurs_at(s, p, i) {
            return true;
        }
        if i == n {
            return false;
        }
        proof {
            assert(s@.subrange(i as int, n as int).drop_first() =~= s@.subrange(i + 1, n as int));
        }
        i = i + 1;
    }
    false
}

} // verus!
