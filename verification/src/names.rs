//! The centralized name-matching helpers the detectors share. Matching method
//! and field names by equality or by substring is a deliberate heuristic; it
//! lives here so each detector states exactly which names it keys on.

use vstd::prelude::*;
use vstd::string::StrSliceExecFns;

verus! {

/// The needle `n` occurs in the haystack `h` starting at position `i`.
pub open spec fn matches_at(h: Seq<char>, n: Seq<char>, i: int) -> bool {
    &&& 0 <= i
    &&& i + n.len() <= h.len()
    &&& forall|j: int| 0 <= j < n.len() ==> h[i + j] == n[j]
}

/// The needle `n` occurs somewhere in the haystack `h`.
pub open spec fn contains_name(h: Seq<char>, n: Seq<char>) -> bool {
    exists|i: int| matches_at(h, n, i)
}

/// Character-for-character equality of two names.
pub fn name_eq(a: &str, b: &str) -> (r: bool)
    ensures
        r == (a@ == b@),
{
    let la = a.unicode_len();
    let lb = b.unicode_len();
    if la != lb {
        return false;
    }
    let mut i: usize = 0;
    while i < la
        invariant
            0 <= i <= la,
            la == a@.len(),
            la == b@.len(),
            forall|j: int| 0 <= j < i ==> a@[j] == b@[j],
        decreases la - i,
    {
        if a.get_char(i) != b.get_char(i) {
            return false;
        }
        i = i + 1;
    }
    proof {
        assert(a@ =~= b@);
    }
    true
}

fn name_matches_at(h: &str, n: &str, i: usize) -> (r: bool)
    requires
        i + n@.len() <= h@.len(),
    ensures
        r == matches_at(h@, n@, i as int),
{
    let lh = h.unicode_len();
    let ln = n.unicode_len();
    let mut j: usize = 0;
    while j < ln
        invariant
            0 <= j <= ln,
            lh == h@.len(),
            ln == n@.len(),
            i + ln <= lh,
            forall|t: int| 0 <= t < j ==> h@[i + t] == n@[t],
        decreases ln - j,
    {
        if h.get_char(i + j) != n.get_char(j) {
            return false;
        }
        j = j + 1;
    }
    true
}

/// Substring search: does the name `h` contain the pattern `n`?
pub fn name_contains(h: &str, n: &str) -> (r: bool)
    ensures
        r == contains_name(h@, n@),
{
    let lh = h.unicode_len();
    let ln = n.unicode_len();
    if ln > lh {
        return false;
    }
    let mut i: usize = 0;
    while i <= lh - ln
        invariant
            0 <= i,
            ln <= lh,
            i + ln <= lh + 1,
            lh == h@.len(),
            ln == n@.len(),
            forall|k: int| 0 <= k < i ==> !matches_at(h@, n@, k),
        decreases lh - ln - i + 1,
    {
        if name_matches_at(h, n, i) {
            return true;
        }
        i = i + 1;
    }
    false
}

/// Some segment of a path contains the pattern `n`; the detectors use this
/// with `"self"` to ask whether an access is rooted at the contract's own
/// receiver.
pub open spec fn any_segment_contains(segments: Seq<String>, n: Seq<char>) -> bool {
    exists|i: int| 0 <= i < segments.len() && contains_name(#[trigger] segments[i]@, n)
}

/// Does any segment of `segments` contain the pattern `n`?
pub fn segments_contain(segments: &Vec<String>, n: &str) -> (r: bool)
    ensures
        r == any_segment_contains(segments@, n@),
{
    let mut i: usize = 0;
    while i < segments.len()
        invariant
            0 <= i <= segments@.len(),
            forall|k: int| 0 <= k < i ==> !contains_name(#[trigger] segments@[k]@, n@),
        decreases segments@.len() - i,
    {
        if name_contains(segments[i].as_str(), n) {
            return true;
        }
        i = i + 1;
    }
    false
}

} // verus!
