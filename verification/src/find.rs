//! First-occurrence search over sequences, with the lemmas that connect a
//! linear scan to the spec-level index.

use vstd::prelude::*;

verus! {

/// Index of the first occurrence of `x` in `s`, or `-1` when absent.
pub open spec fn first_index_of<T>(s: Seq<T>, x: T) -> int
    decreases s.len(),
{
    if s.len() == 0 {
        -1
    } else if s[0] == x {
        0
    } else {
        let r = first_index_of(s.drop_first(), x);
        if r < 0 {
            -1
        } else {
            r + 1
        }
    }
}

/// No element occurs twice.
pub open spec fn distinct<T>(s: Seq<T>) -> bool {
    forall|i: int, j: int| 0 <= i < j < s.len() ==> s[i] != s[j]
}

/// `first_index_of` is non-negative exactly when `x` occurs, and then it is
/// the least index holding `x`.
pub proof fn lemma_first_index_of_props<T>(s: Seq<T>, x: T)
    ensures
        s.contains(x) <==> first_index_of(s, x) >= 0,
        first_index_of(s, x) >= 0 ==> {
            &&& first_index_of(s, x) < s.len()
            &&& s[first_index_of(s, x)] == x
            &&& forall|k: int| 0 <= k < first_index_of(s, x) ==> s[k] != x
        },
    decreases s.len(),
{
    if s.len() == 0 {
        assert(!s.contains(x));
    } else if s[0] == x {
        assert(s.contains(x));
    } else {
        let t = s.drop_first();
        lemma_first_index_of_props(t, x);
        if s.contains(x) {
            let i = choose|i: int| 0 <= i < s.len() && s[i] == x;
            assert(t[i - 1] == x);
            assert(t.contains(x));
        }
        if t.contains(x) {
            let i = choose|i: int| 0 <= i < t.len() && t[i] == x;
            assert(s[i + 1] == x);
            assert(s.contains(x));
        }
        if first_index_of(t, x) >= 0 {
            let r = first_index_of(t, x);
            assert(s[r + 1] == t[r]);
            assert forall|k: int| 0 <= k < r + 1 implies s[k] != x by {
                if k > 0 {
                    assert(s[k] == t[k - 1]);
                }
            }
        }
    }
}

/// A scan that saw `x` first at index `i` agrees with `first_index_of`.
pub proof fn lemma_first_index_of_at<T>(s: Seq<T>, x: T, i: int)
    requires
        0 <= i < s.len(),
        s[i] == x,
        forall|k: int| 0 <= k < i ==> s[k] != x,
    ensures
        first_index_of(s, x) == i,
    decreases i,
{
    if i == 0 {
    } else {
        let t = s.drop_first();
        assert(t[i - 1] == x);
        assert forall|k: int| 0 <= k < i - 1 implies t[k] != x by {
            assert(t[k] == s[k + 1]);
        }
        lemma_first_index_of_at(t, x, i - 1);
    }
}

/// In a duplicate-free sequence, the first index of `s[j]` is `j` itself.
pub proof fn lemma_first_index_of_distinct<T>(s: Seq<T>, j: int)
    requires
        distinct(s),
        0 <= j < s.len(),
    ensures
        first_index_of(s, s[j]) == j,
{
    lemma_first_index_of_at(s, s[j], j);
}

} // verus!
