use vstd::prelude::*;
use vstd::string::StrSliceExecFns;

verus! {

/// `pat` occurs as a (contiguous) substring of `text`.
pub open spec fn contains_seq(text: Seq<char>, pat: Seq<char>) -> bool {
    exists|i: int|
        0 <= i && i + pat.len() <= text.len() && #[trigger] text.subrange(i, i + pat.len())
            == pat
}

/// `pre` is a prefix of `text`.
pub open spec fn has_prefix(text: Seq<char>, pre: Seq<char>) -> bool {
    pre.len() <= text.len() && text.subrange(0, pre.len() as int) == pre
}

/// `pat` occurs in `text` starting at character position `at`.
fn matches_at(text: &str, pat: &str, at: usize) -> (r: bool)
    requires
        at + pat@.len() <= text@.len(),
    ensures
        r == (text@.subrange(at as int, at + pat@.len()) == pat@),
{
    let n = text.unicode_len();
    let m = pat.unicode_len();
    let mut j: usize = 0;
    while j < m
        invariant
            j <= m,
            n == text@.len(),
            m == pat@.len(),
            at + m <= n,
            forall|k: int| 0 <= k < j ==> text@[at + k] == pat@[k],
        decreases m - j,
    {
        if text.get_char(at + j) != pat.get_char(j) {
            assert(text@.subrange(at as int, at + pat@.len())[j as int] != pat@[j as int]);
            return false;
        }
        j += 1;
    }
    assert(text@.subrange(at as int, at + pat@.len()) =~= pat@);
    true
}

/// Substring search: decides `contains_seq(text@, pat@)` by trying every
/// start position in turn.
pub fn contains_str(text: &str, pat: &str) -> (r: bool)
    ensures
        r == contains_seq(text@, pat@),
{
    let n = text.unicode_len();
    let m = pat.unicode_len();
    if m > n {
        assert(!contains_seq(text@, pat@));
        return false;
    }
    if m == 0 {
        assert(contains_seq(text@, pat@)) by {
            assert(text@.subrange(0, 0 + pat@.len() as int) =~= pat@);
        }
        return true;
    }
    let mut i: usize = 0;
    while i <= n - m
        invariant
            n == text@.len(),
            m == pat@.len(),
            0 < m <= n,
            i <= n - m + 1,
            forall|k: int|
                0 <= k < i ==> #[trigger] text@.subrange(k, k + pat@.len()) != pat@,
        decreases n - m + 1 - i,
    {
        if matches_at(text, pat, i) {
            return true;
        }
        i += 1;
    }
    assert forall|k: int|
        0 <= k && k + pat@.len() <= text@.len() implies #[trigger] text@.subrange(
        k,
        k + pat@.len(),
    ) != pat@ by {
        assert(k < i);
    }
    false
}

/// Prefix test: decides `has_prefix(text@, pre@)`.
pub fn starts_with_str(text: &str, pre: &str) -> (r: bool)
    ensures
        r == has_prefix(text@, pre@),
{
    let n = text.unicode_len();
    let m = pre.unicode_len();
    if m > n {
        return false;
    }
    matches_at(text, pre, 0)
}

} // verus!
