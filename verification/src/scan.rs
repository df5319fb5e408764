//! Helpers for locating the first occurrence of an element in a sequence.
//!
//! Both the URL text operations (finding `:`, `?` and `#`) and the socket
//! framing (finding the zero-byte terminator) reduce to "index of the first
//! occurrence, or the length when there is none".

use vstd::prelude::*;

verus! {

/// Index of the first occurrence of `x` in `s`, or `s.len()` when `s` does
/// not contain `x`.
pub open spec fn spec_find<T>(s: Seq<T>, x: T) -> int
    decreases s.len(),
{
    if s.len() == 0 {
        0
    } else if s[0] == x {
        0
    } else {
        1 + spec_find(s.skip(1), x)
    }
}

/// `spec_find` lands on the first occurrence: it is in bounds exactly when
/// the element occurs, it points at the element then, and everything before
/// it differs from the element.
pub proof fn lemma_spec_find<T>(s: Seq<T>, x: T)
    ensures
        0 <= spec_find(s, x) <= s.len(),
        spec_find(s, x) < s.len() ==> s[spec_find(s, x)] == x,
        forall|j: int| 0 <= j < spec_find(s, x) ==> s[j] != x,
    decreases s.len(),
{
    if s.len() == 0 {
    } else if s[0] == x {
    } else {
        lemma_spec_find(s.skip(1), x);
        assert forall|j: int| 0 <= j < spec_find(s, x) implies s[j] != x by {
            if j > 0 {
                assert(s.skip(1)[j - 1] == s[j]);
            }
        }
        if spec_find(s, x) < s.len() {
            assert(s.skip(1)[spec_find(s.skip(1), x)] == s[spec_find(s, x)]);
        }
    }
}

/// An index below which the element is absent, and at which it sits if in
/// bounds, is exactly `spec_find`.
pub proof fn lemma_find_is_first<T>(s: Seq<T>, x: T, i: int)
    requires
        0 <= i <= s.len(),
        forall|j: int| 0 <= j < i ==> s[j] != x,
        i < s.len() ==> s[i] == x,
    ensures
        spec_find(s, x) == i,
    decreases s.len(),
{
    if s.len() == 0 {
    } else if i == 0 {
    } else {
        assert(s[0] != x);
        assert forall|j: int| 0 <= j < i - 1 implies s.skip(1)[j] != x by {
            assert(s.skip(1)[j] == s[j + 1]);
        }
        if i - 1 < s.len() - 1 {
            assert(s.skip(1)[i - 1] == s[i]);
        }
        lemma_find_is_first(s.skip(1), x, i - 1);
    }
}

} // verus!
