//! A summation function over mathematical sequences, with the lemmas the
//! totals calculator needs: stepping a prefix sum, bounding a prefix by the
//! whole, and comparing sums pointwise.

use vstd::prelude::*;

verus! {

/// Sum of `f` over all elements of `s`.
pub open spec fn seq_sum<T>(s: Seq<T>, f: spec_fn(T) -> int) -> int
    decreases s.len(),
{
    if s.len() == 0 {
        0
    } else {
        seq_sum(s.drop_last(), f) + f(s.last())
    }
}

/// Extending a prefix by one element adds that element's value.
pub proof fn lemma_seq_sum_take_step<T>(s: Seq<T>, f: spec_fn(T) -> int, i: int)
    requires
        0 <= i < s.len(),
    ensures
        seq_sum(s.take(i + 1), f) == seq_sum(s.take(i), f) + f(s[i]),
{
    assert(s.take(i + 1).drop_last() =~= s.take(i));
    assert(s.take(i + 1).last() == s[i]);
}

/// Taking the whole sequence changes nothing.
pub proof fn lemma_seq_sum_take_all<T>(s: Seq<T>, f: spec_fn(T) -> int)
    ensures
        seq_sum(s.take(s.len() as int), f) == seq_sum(s, f),
{
    assert(s.take(s.len() as int) =~= s);
}

/// A sum of non-negative values is non-negative.
pub proof fn lemma_seq_sum_nonneg<T>(s: Seq<T>, f: spec_fn(T) -> int)
    requires
        forall|i: int| 0 <= i < s.len() ==> f(#[trigger] s[i]) >= 0,
    ensures
        seq_sum(s, f) >= 0,
    decreases s.len(),
{
    if s.len() > 0 {
        assert(forall|i: int|
            0 <= i < s.drop_last().len() ==> f(#[trigger] s.drop_last()[i]) >= 0);
        lemma_seq_sum_nonneg(s.drop_last(), f);
        assert(f(s.last()) >= 0);
    }
}

/// For non-negative values, a prefix sum never exceeds the whole sum.
pub proof fn lemma_seq_sum_take_le<T>(s: Seq<T>, f: spec_fn(T) -> int, i: int)
    requires
        0 <= i <= s.len(),
        forall|j: int| 0 <= j < s.len() ==> f(#[trigger] s[j]) >= 0,
    ensures
        seq_sum(s.take(i), f) <= seq_sum(s, f),
    decreases s.len() - i,
{
    if i == s.len() {
        lemma_seq_sum_take_all(s, f);
    } else {
        lemma_seq_sum_take_step(s, f, i);
        lemma_seq_sum_take_le(s, f, i + 1);
    }
}

/// Pushing an element adds its value.
pub proof fn lemma_seq_sum_push<T>(s: Seq<T>, f: spec_fn(T) -> int, x: T)
    ensures
        seq_sum(s.push(x), f) == seq_sum(s, f) + f(x),
{
    assert(s.push(x).drop_last() =~= s);
    assert(s.push(x).last() == x);
}

/// A prefix of a pushed sequence that stops before the new element is a
/// prefix of the unpushed sequence.
pub proof fn lemma_take_of_push<T>(s: Seq<T>, x: T, i: int)
    requires
        0 <= i <= s.len(),
    ensures
        s.push(x).take(i) =~= s.take(i),
{
}

/// Sums compare pointwise.
pub proof fn lemma_seq_sum_le_pointwise<T>(s: Seq<T>, f: spec_fn(T) -> int, g: spec_fn(T) -> int)
    requires
        forall|i: int| 0 <= i < s.len() ==> f(#[trigger] s[i]) <= g(#[trigger] s[i]),
    ensures
        seq_sum(s, f) <= seq_sum(s, g),
    decreases s.len(),
{
    if s.len() > 0 {
        assert(forall|i: int|
            0 <= i < s.drop_last().len() ==> f(#[trigger] s.drop_last()[i]) <= g(
                s.drop_last()[i],
            ));
        lemma_seq_sum_le_pointwise(s.drop_last(), f, g);
        assert(f(s.last()) <= g(s.last()));
    }
}

} // verus!
