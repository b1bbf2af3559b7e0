use vstd::prelude::*;

verus! {

/// The sum of `f` over the items of `s`: `f(s[0]) + f(s[1]) + ...`, and 0 for
/// the empty sequence. Every total of the ledger is an instance of it.
pub open spec fn sum_by<T>(s: Seq<T>, f: spec_fn(T) -> int) -> int
    decreases s.len(),
{
    if s.len() == 0 {
        0
    } else {
        sum_by(s.drop_last(), f) + f(s.last())
    }
}

/// The sum over the first `i + 1` items is the sum over the first `i` plus
/// the value of item `i`.
pub proof fn lemma_sum_by_take_next<T>(s: Seq<T>, i: int, f: spec_fn(T) -> int)
    requires
        0 <= i < s.len(),
    ensures
        sum_by(s.take(i + 1), f) == sum_by(s.take(i), f) + f(s[i]),
{
    assert(s.take(i + 1).drop_last() =~= s.take(i));
}

/// Where every value lies between `lo` and `hi`, the sum lies between
/// `len * lo` and `len * hi`.
pub proof fn lemma_sum_by_bounds<T>(s: Seq<T>, f: spec_fn(T) -> int, lo: int, hi: int)
    requires
        forall|i: int| 0 <= i < s.len() ==> lo <= #[trigger] f(s[i]) <= hi,
    ensures
        s.len() * lo <= sum_by(s, f) <= s.len() * hi,
    decreases s.len(),
{
    if s.len() > 0 {
        let rest = s.drop_last();
        lemma_sum_by_bounds(rest, f, lo, hi);
        assert(s.len() * lo == rest.len() * lo + lo) by (nonlinear_arith)
            requires
                s.len() == rest.len() + 1,
        ;
        assert(s.len() * hi == rest.len() * hi + hi) by (nonlinear_arith)
            requires
                s.len() == rest.len() + 1,
        ;
    }
}

/// Taking one item out takes its value out of the sum.
pub proof fn lemma_sum_by_remove<T>(s: Seq<T>, j: int, f: spec_fn(T) -> int)
    requires
        0 <= j < s.len(),
    ensures
        sum_by(s, f) == sum_by(s.remove(j), f) + f(s[j]),
    decreases s.len(),
{
    if j < s.len() - 1 {
        lemma_sum_by_remove(s.drop_last(), j, f);
        assert(s.drop_last().remove(j) =~= s.remove(j).drop_last());
    }
}

/// A sum does not depend on the order of its items: two sequences that hold
/// the same items the same number of times have the same sum.
pub proof fn lemma_sum_by_any_order<T>(a: Seq<T>, b: Seq<T>, f: spec_fn(T) -> int)
    requires
        a.to_multiset() == b.to_multiset(),
    ensures
        sum_by(a, f) == sum_by(b, f),
    decreases a.len(),
{
    a.to_multiset_ensures();
    b.to_multiset_ensures();
    if a.len() > 0 {
        let x = a.last();
        assert(b.to_multiset().count(x) > 0);
        let j = choose|j: int| 0 <= j < b.len() && b[j] == x;
        let a_rest = a.drop_last();
        let b_rest = b.remove(j);
        assert(a_rest =~= a.remove(a.len() - 1));
        lemma_sum_by_any_order(a_rest, b_rest, f);
        lemma_sum_by_remove(b, j, f);
    }
}

} // verus!
