//! Lists in which a value is found by its first occurrence.

use vstd::prelude::*;

verus! {

/// Where `x` first stands in `s`; the length of `s` if it does not occur.
pub open spec fn first_index<T>(s: Seq<T>, x: T) -> int
    decreases s.len(),
{
    if s.len() == 0 {
        0
    } else if s[0] == x {
        0
    } else {
        1 + first_index(s.drop_first(), x)
    }
}

/// `s` without the first occurrence of `x`; `s` itself if `x` does not occur.
pub open spec fn without_first<T>(s: Seq<T>, x: T) -> Seq<T> {
    if first_index(s, x) < s.len() {
        s.remove(first_index(s, x))
    } else {
        s
    }
}

/// `first_index` points at `x`, or past the end, and `x` does not occur before it.
pub proof fn lemma_first_index<T>(s: Seq<T>, x: T)
    ensures
        0 <= first_index(s, x) <= s.len(),
        first_index(s, x) < s.len() ==> s[first_index(s, x)] == x,
        forall|k: int| 0 <= k < first_index(s, x) ==> s[k] != x,
        first_index(s, x) < s.len() <==> s.contains(x),
    decreases s.len(),
{
    if s.len() > 0 && s[0] != x {
        let rest = s.drop_first();
        lemma_first_index(rest, x);
        assert forall|k: int| 0 <= k < first_index(s, x) implies s[k] != x by {
            if k > 0 {
                assert(s[k] == rest[k - 1]);
            }
        }
        if first_index(s, x) < s.len() {
            assert(s[first_index(s, x)] == rest[first_index(rest, x)]);
        }
        if s.contains(x) {
            let k = choose|k: int| 0 <= k < s.len() && s[k] == x;
            assert(rest[k - 1] == x);
        }
    } else if s.len() > 0 {
        assert(s[0] == x);
    }
}

/// An occurrence of `x` at `k`, with none before it, is the first.
pub proof fn lemma_first_index_is<T>(s: Seq<T>, x: T, k: int)
    requires
        0 <= k <= s.len(),
        k < s.len() ==> s[k] == x,
        forall|j: int| 0 <= j < k ==> s[j] != x,
    ensures
        first_index(s, x) == k,
{
    lemma_first_index(s, x);
}

/// Taking out the first occurrence of `a` leaves every other value in.
pub proof fn lemma_without_first_keeps_others<T>(s: Seq<T>, a: T, x: T)
    requires
        x != a,
        s.contains(x),
    ensures
        without_first(s, a).contains(x),
{
    lemma_first_index(s, a);
    let at = first_index(s, a);
    let k = choose|k: int| 0 <= k < s.len() && s[k] == x;
    if at < s.len() {
        if k < at {
            assert(without_first(s, a)[k] == x);
        } else {
            assert(without_first(s, a)[k - 1] == x);
        }
    }
}

} // verus!
