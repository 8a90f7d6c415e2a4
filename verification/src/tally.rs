//! Sums over the numbers below a bound, for counting cells and adding them up.

use vstd::prelude::*;

verus! {

/// The sum of a weight over every number below `n`.
pub open spec fn tally(n: int, weight: spec_fn(int) -> int) -> int
    decreases n,
{
    if n <= 0 {
        0
    } else {
        tally(n - 1, weight) + weight(n - 1)
    }
}

/// `value` where a set has the cell, nothing where it has not.
pub open spec fn where_member(
    member: spec_fn(int) -> bool,
    value: spec_fn(int) -> int,
) -> spec_fn(int) -> int {
    |c: int|
        if member(c) {
            value(c)
        } else {
            0
        }
}

/// Weights that differ at one number give sums that differ by as much.
pub proof fn lemma_tally_differs_at(
    n: int,
    a: spec_fn(int) -> int,
    b: spec_fn(int) -> int,
    at: int,
)
    requires
        forall|c: int| 0 <= c < n && c != at ==> #[trigger] a(c) == b(c),
    ensures
        tally(n, b) == tally(n, a) + (if 0 <= at < n {
            b(at) - a(at)
        } else {
            0
        }),
    decreases n,
{
    if n > 0 {
        lemma_tally_differs_at(n - 1, a, b, at);
        if at != n - 1 {
            assert(a(n - 1) == b(n - 1));
        }
    }
}

/// Weights that are nothing everywhere sum to nothing.
pub proof fn lemma_tally_nothing(n: int, weight: spec_fn(int) -> int)
    requires
        forall|c: int| 0 <= c < n ==> #[trigger] weight(c) == 0,
    ensures
        tally(n, weight) == 0,
    decreases n,
{
    if n > 0 {
        lemma_tally_nothing(n - 1, weight);
    }
}

/// A set that has a number below `n` has at least one of them.
pub proof fn lemma_tally_reaches(n: int, member: spec_fn(int) -> bool, at: int)
    requires
        0 <= at < n,
        member(at),
    ensures
        tally(n, where_member(member, |c: int| 1)) >= 1,
    decreases n,
{
    if at < n - 1 {
        lemma_tally_reaches(n - 1, member, at);
    } else {
        lemma_tally_at_most(n - 1, member);
    }
}

/// The sum of two weights is the sum of their sums.
pub proof fn lemma_tally_sum(
    n: int,
    a: spec_fn(int) -> int,
    b: spec_fn(int) -> int,
    both: spec_fn(int) -> int,
)
    requires
        forall|c: int| 0 <= c < n ==> #[trigger] both(c) == a(c) + b(c),
    ensures
        tally(n, both) == tally(n, a) + tally(n, b),
    decreases n,
{
    if n > 0 {
        lemma_tally_sum(n - 1, a, b, both);
        assert(both(n - 1) == a(n - 1) + b(n - 1));
    }
}

/// Weights that agree have one sum.
pub proof fn lemma_tally_same(n: int, a: spec_fn(int) -> int, b: spec_fn(int) -> int)
    requires
        forall|c: int| 0 <= c < n ==> #[trigger] a(c) == b(c),
    ensures
        tally(n, a) == tally(n, b),
    decreases n,
{
    if n > 0 {
        lemma_tally_same(n - 1, a, b);
        assert(a(n - 1) == b(n - 1));
    }
}

/// A set of numbers below `n` has at most `n` of them.
pub proof fn lemma_tally_at_most(n: int, member: spec_fn(int) -> bool)
    requires
        n >= 0,
    ensures
        0 <= tally(n, where_member(member, |c: int| 1)) <= n,
    decreases n,
{
    if n > 0 {
        lemma_tally_at_most(n - 1, member);
    }
}

/// Summing a table by rows or by columns gives one sum.
pub proof fn lemma_tally_swap(n: int, m: int, weight: spec_fn(int, int) -> int)
    ensures
        tally(n, |a: int| tally(m, |b: int| weight(a, b))) == tally(
            m,
            |b: int| tally(n, |a: int| weight(a, b)),
        ),
    decreases n,
{
    if n > 0 {
        lemma_tally_swap(n - 1, m, weight);
        lemma_tally_sum(
            m,
            |b: int| tally(n - 1, |a: int| weight(a, b)),
            |b: int| weight(n - 1, b),
            |b: int| tally(n, |a: int| weight(a, b)),
        );
    } else {
        lemma_tally_nothing(m, |b: int| tally(n, |a: int| weight(a, b)));
    }
}

/// A weight that is one at one number and nothing elsewhere sums to one.
pub proof fn lemma_tally_single(n: int, weight: spec_fn(int) -> int, at: int)
    requires
        0 <= at < n,
        weight(at) == 1,
        forall|c: int| 0 <= c < n && c != at ==> #[trigger] weight(c) == 0,
    ensures
        tally(n, weight) == 1,
    decreases n,
{
    if at == n - 1 {
        lemma_tally_nothing(n - 1, weight);
    } else {
        lemma_tally_single(n - 1, weight, at);
        assert(weight(n - 1) == 0);
    }
}

} // verus!
