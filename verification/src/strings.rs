//! Verified character-level string operations: equality, substring search,
//! and the suffix after the last `'-'`, which is how menu-item identifiers
//! carry a resource id.

use vstd::prelude::*;
use vstd::string::StrSliceExecFns;

verus! {

/// Character-wise string equality.
pub fn str_eq(a: &str, b: &str) -> (r: bool)
    ensures
        r == (a@ == b@),
{
    let an = a.unicode_len();
    let bn = b.unicode_len();
    if an != bn {
        return false;
    }
    let mut i: usize = 0;
    while i < an
        invariant
            an == a@.len(),
            an == b@.len(),
            i <= an,
            forall|j: int| 0 <= j < i ==> a@[j] == b@[j],
        decreases an - i,
    {
        if a.get_char(i) != b.get_char(i) {
            return false;
        }
        i += 1;
    }
    proof {
        assert(a@ =~= b@);
    }
    true
}

/// `sub` occurs in `s` starting at character position `i`.
pub open spec fn contains_seq_at(s: Seq<char>, sub: Seq<char>, i: int) -> bool {
    0 <= i && i + sub.len() <= s.len() && s.subrange(i, i + sub.len() as int) == sub
}

/// `sub` occurs somewhere in `s`.
pub open spec fn contains_seq(s: Seq<char>, sub: Seq<char>) -> bool {
    exists|i: int| contains_seq_at(s, sub, i)
}

fn matches_at(s: &str, sub: &str, i: usize) -> (r: bool)
    requires
        i + sub@.len() <= s@.len(),
    ensures
        r == contains_seq_at(s@, sub@, i as int),
{
    let n = s.unicode_len();
    let m = sub.unicode_len();
    let mut j: usize = 0;
    while j < m
        invariant
            n == s@.len(),
            m == sub@.len(),
            i + m <= n,
            j <= m,
            forall|k: int| 0 <= k < j ==> s@[i + k] == sub@[k],
        decreases m - j,
    {
        if s.get_char(i + j) != sub.get_char(j) {
            proof {
                assert(s@.subrange(i as int, i + m as int)[j as int] == s@[i + j]);
            }
            return false;
        }
        j += 1;
    }
    proof {
        assert(s@.subrange(i as int, i + m as int) =~= sub@);
    }
    true
}

/// Substring search over characters.
pub fn str_contains(s: &str, sub: &str) -> (r: bool)
    ensures
        r == contains_seq(s@, sub@),
{
    let n = s.unicode_len();
    let m = sub.unicode_len();
    if m > n {
        return false;
    }
    let mut i: usize = 0;
    while i < n - m
        invariant
            n == s@.len(),
            m == sub@.len(),
            m <= n,
            i <= n - m,
            forall|k: int| 0 <= k < i ==> !contains_seq_at(s@, sub@, k),
        decreases n - m - i,
    {
        if matches_at(s, sub, i) {
            return true;
        }
        i += 1;
    }
    if matches_at(s, sub, i) {
        return true;
    }
    proof {
        assert(forall|k: int| i < k ==> !contains_seq_at(s@, sub@, k));
    }
    false
}

/// The characters after the last `'-'` of `s`; all of `s` when it holds no
/// `'-'`. This is how a resource id is read back out of an actionable
/// menu-item identifier.
pub open spec fn tail_after_last_dash(s: Seq<char>) -> Seq<char>
    decreases s.len(),
{
    if s.len() == 0 {
        s
    } else if s.last() == '-' {
        Seq::empty()
    } else {
        tail_after_last_dash(s.drop_last()).push(s.last())
    }
}

/// When the last `'-'` of `s` stands at `j`, the tail is everything past `j`.
pub proof fn lemma_tail_after_dash_at(s: Seq<char>, j: int)
    requires
        0 <= j < s.len(),
        s[j] == '-',
        forall|k: int| j < k < s.len() ==> s[k] != '-',
    ensures
        tail_after_last_dash(s) == s.subrange(j + 1, s.len() as int),
    decreases s.len(),
{
    if j == s.len() - 1 {
        assert(tail_after_last_dash(s) =~= s.subrange(j + 1, s.len() as int));
    } else {
        lemma_tail_after_dash_at(s.drop_last(), j);
        assert(tail_after_last_dash(s) =~= s.subrange(j + 1, s.len() as int));
    }
}

/// A string without `'-'` is its own tail.
pub proof fn lemma_tail_no_dash(s: Seq<char>)
    requires
        !s.contains('-'),
    ensures
        tail_after_last_dash(s) == s,
    decreases s.len(),
{
    if s.len() > 0 {
        assert(!s.drop_last().contains('-')) by {
            assert(forall|k: int|
                0 <= k < s.drop_last().len() ==> s.drop_last()[k] == s[k] && s[k] != '-');
        }
        lemma_tail_no_dash(s.drop_last());
        assert(tail_after_last_dash(s) =~= s);
    }
}

/// Extracts the characters after the last `'-'`.
pub fn after_last_dash<'a>(s: &'a str) -> (r: &'a str)
    ensures
        r@ == tail_after_last_dash(s@),
{
    let n = s.unicode_len();
    let mut i: usize = n;
    while i > 0
        invariant
            n == s@.len(),
            i <= n,
            forall|k: int| i <= k < n ==> s@[k] != '-',
        decreases i,
    {
        if s.get_char(i - 1) == '-' {
            let r = s.substring_char(i, n);
            proof {
                lemma_tail_after_dash_at(s@, i - 1);
            }
            return r;
        }
        i -= 1;
    }
    proof {
        assert(!s@.contains('-')) by {
            assert(forall|k: int| 0 <= k < s@.len() ==> s@[k] != '-');
        }
        lemma_tail_no_dash(s@);
    }
    s
}

} // verus!
