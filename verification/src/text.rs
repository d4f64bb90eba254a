//! Substring search over the characters of a string.

use vstd::prelude::*;
use vstd::string::*;

verus! {

/// `pat` stands in `text` starting at index `i`.
pub open spec fn occurs_at(text: Seq<char>, pat: Seq<char>, i: int) -> bool {
    &&& 0 <= i
    &&& i + pat.len() <= text.len()
    &&& forall|j: int| 0 <= j < pat.len() ==> text[i + j] == #[trigger] pat[j]
}

/// `pat` stands somewhere in `text`. The empty pattern stands in every text.
pub open spec fn has_substring(text: Seq<char>, pat: Seq<char>) -> bool {
    exists|i: int| occurs_at(text, pat, i)
}

/// Whether `pat` stands in `text` at character index `start`.
fn matches_at(text: &str, pat: &str, start: usize, n: usize, m: usize) -> (hit: bool)
    requires
        n == text@.len(),
        m == pat@.len(),
        start + m <= n,
    ensures
        hit == occurs_at(text@, pat@, start as int),
{
    let mut j: usize = 0;
    while j < m
        invariant
            n == text@.len(),
            m == pat@.len(),
            start + m <= n,
            j <= m,
            forall|k: int| 0 <= k < j ==> text@[start + k] == #[trigger] pat@[k],
        decreases m - j,
    {
        if text.get_char(start + j) != pat.get_char(j) {
            return false;
        }
        j += 1;
    }
    true
}

/// Whether `pat` occurs in `text` as a contiguous run of characters.
pub fn contains(text: &str, pat: &str) -> (found: bool)
    ensures
        found == has_substring(text@, pat@),
{
    let n: usize = text.unicode_len();
    let m: usize = pat.unicode_len();
    if m > n {
        assert forall|i: int| !occurs_at(text@, pat@, i) by {}
        return false;
    }
    let last: usize = n - m;
    let mut i: usize = 0;
    while i <= last
        invariant
            n == text@.len(),
            m == pat@.len(),
            last == n - m,
            i <= last + 1,
            forall|k: int| 0 <= k < i ==> !occurs_at(text@, pat@, k),
        decreases last + 1 - i,
    {
        if matches_at(text, pat, i, n, m) {
            return true;
        }
        i += 1;
    }
    assert forall|k: int| !occurs_at(text@, pat@, k) by {}
    false
}

} // verus!
