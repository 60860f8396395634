//! Sequence helpers shared by the table lookups: the first element that
//! satisfies a predicate, and the sum of a value over a sequence.

use vstd::prelude::*;

verus! {

/// The first element of `s` that satisfies `p`, if any.
pub open spec fn first_match<T>(s: Seq<T>, p: spec_fn(T) -> bool) -> Option<T>
    decreases s.len(),
{
    if s.len() == 0 {
        None
    } else if p(s[0]) {
        Some(s[0])
    } else {
        first_match(s.drop_first(), p)
    }
}

/// The sum of `f` over the elements of `s`.
pub open spec fn sum_of<T>(s: Seq<T>, f: spec_fn(T) -> int) -> int
    decreases s.len(),
{
    if s.len() == 0 {
        0
    } else {
        sum_of(s.drop_last(), f) + f(s.last())
    }
}

/// Scanning one more element: the first match in `s[i..]` is `s[i]` when it
/// satisfies `p`, and the first match in `s[i + 1..]` otherwise.
pub proof fn lemma_first_match_skip<T>(s: Seq<T>, p: spec_fn(T) -> bool, i: int)
    requires
        0 <= i < s.len(),
    ensures
        first_match(s.skip(i), p) == if p(s[i]) {
            Some(s[i])
        } else {
            first_match(s.skip(i + 1), p)
        },
{
    assert(s.skip(i).drop_first() =~= s.skip(i + 1));
}

/// The first match of `s` is the element at the first index where `p` holds.
pub proof fn lemma_first_match_index<T>(s: Seq<T>, p: spec_fn(T) -> bool, k: int)
    requires
        0 <= k < s.len(),
        p(s[k]),
        forall|j: int| 0 <= j < k ==> !p(#[trigger] s[j]),
    ensures
        first_match(s, p) == Some(s[k]),
    decreases k,
{
    if k > 0 {
        assert(forall|j: int| 0 <= j < k - 1 ==> #[trigger] s.drop_first()[j] == s[j + 1]);
        lemma_first_match_index(s.drop_first(), p, k - 1);
    }
}

/// A sequence in which no element satisfies `p` has no first match.
pub proof fn lemma_first_match_none<T>(s: Seq<T>, p: spec_fn(T) -> bool)
    requires
        forall|j: int| 0 <= j < s.len() ==> !p(#[trigger] s[j]),
    ensures
        first_match(s, p) is None,
    decreases s.len(),
{
    if s.len() > 0 {
        assert(forall|j: int| 0 <= j < s.len() - 1 ==> #[trigger] s.drop_first()[j] == s[j + 1]);
        lemma_first_match_none(s.drop_first(), p);
    }
}

/// A first match satisfies `p` and is an element of `s`.
pub proof fn lemma_first_match_found<T>(s: Seq<T>, p: spec_fn(T) -> bool)
    requires
        first_match(s, p) is Some,
    ensures
        p(first_match(s, p)->0),
        exists|k: int| 0 <= k < s.len() && s[k] == first_match(s, p)->0,
    decreases s.len(),
{
    if !p(s[0]) {
        lemma_first_match_found(s.drop_first(), p);
        let k = choose|k: int| 0 <= k < s.drop_first().len() && s.drop_first()[k] == first_match(s, p)->0;
        assert(s[k + 1] == first_match(s, p)->0);
    } else {
        assert(s[0] == first_match(s, p)->0);
    }
}

/// Adding one element at the end adds its value to the sum.
pub proof fn lemma_sum_of_push<T>(s: Seq<T>, x: T, f: spec_fn(T) -> int)
    ensures
        sum_of(s.push(x), f) == sum_of(s, f) + f(x),
{
    assert(s.push(x).drop_last() =~= s);
}

/// A sum of non-negative values never decreases along the prefixes of a sequence.
pub proof fn lemma_sum_of_prefix_le<T>(s: Seq<T>, f: spec_fn(T) -> int, i: int)
    requires
        0 <= i <= s.len(),
        forall|j: int| 0 <= j < s.len() ==> f(#[trigger] s[j]) >= 0,
    ensures
        sum_of(s.take(i), f) <= sum_of(s, f),
    decreases s.len() - i,
{
    if i < s.len() {
        lemma_sum_of_prefix_le(s, f, i + 1);
        assert(s.take(i + 1) =~= s.take(i).push(s[i]));
        lemma_sum_of_push(s.take(i), s[i], f);
    } else {
        assert(s.take(i) =~= s);
    }
}

} // verus!
