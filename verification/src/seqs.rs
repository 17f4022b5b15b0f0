//! Sums and concatenations over sequences, with the facts that the proofs
//! about lists of nodes use.

use vstd::prelude::*;

verus! {

/// The sum of the numbers in `s`.
pub open spec fn sum(s: Seq<nat>) -> nat
    decreases s.len(),
{
    if s.len() == 0 {
        0
    } else {
        sum(s.drop_last()) + s.last()
    }
}

/// The sequences in `parts`, one after another.
pub open spec fn concat<A>(parts: Seq<Seq<A>>) -> Seq<A>
    decreases parts.len(),
{
    if parts.len() == 0 {
        Seq::empty()
    } else {
        concat(parts.drop_last()) + parts.last()
    }
}

/// A counter that stops at the largest `usize`.
pub open spec fn saturated(n: int) -> usize {
    if n >= usize::MAX {
        usize::MAX
    } else {
        n as usize
    }
}

/// Summing one more element adds it to the sum.
pub proof fn lemma_sum_take_next(s: Seq<nat>, i: int)
    requires
        0 <= i < s.len(),
    ensures
        sum(s.take(i + 1)) == sum(s.take(i)) + s[i],
{
    assert(s.take(i + 1).drop_last() == s.take(i));
}

/// A sum is zero exactly when every element is.
pub proof fn lemma_sum_zero(s: Seq<nat>)
    ensures
        sum(s) == 0 <==> forall|i: int| 0 <= i < s.len() ==> s[i] == 0,
    decreases s.len(),
{
    if s.len() > 0 {
        lemma_sum_zero(s.drop_last());
        if sum(s) == 0 {
            assert forall|i: int| 0 <= i < s.len() implies s[i] == 0 by {
                if i < s.len() - 1 {
                    assert(s.drop_last()[i] == s[i]);
                }
            }
        }
        if forall|i: int| 0 <= i < s.len() ==> s[i] == 0 {
            assert forall|i: int| 0 <= i < s.drop_last().len() implies s.drop_last()[i] == 0 by {
                assert(s.drop_last()[i] == s[i]);
            }
        }
    }
}

/// Concatenating one more part appends it.
pub proof fn lemma_concat_take_next<A>(parts: Seq<Seq<A>>, i: int)
    requires
        0 <= i < parts.len(),
    ensures
        concat(parts.take(i + 1)) == concat(parts.take(i)) + parts[i],
{
    assert(parts.take(i + 1).drop_last() == parts.take(i));
}

/// An element is in a concatenation exactly when it is in one of the parts.
pub proof fn lemma_concat_contains<A>(parts: Seq<Seq<A>>, x: A)
    ensures
        concat(parts).contains(x) <==> exists|i: int|
            0 <= i < parts.len() && #[trigger] parts[i].contains(x),
    decreases parts.len(),
{
    if parts.len() == 0 {
        assert(!Seq::<A>::empty().contains(x));
    } else {
        let front = parts.drop_last();
        lemma_concat_contains(front, x);
        lemma_append_contains(concat(front), parts.last(), x);
        if concat(parts).contains(x) {
            if concat(front).contains(x) {
                let i = choose|i: int| 0 <= i < front.len() && #[trigger] front[i].contains(x);
                assert(parts[i].contains(x));
            } else {
                assert(parts[parts.len() - 1].contains(x));
            }
        }
        if exists|i: int| 0 <= i < parts.len() && #[trigger] parts[i].contains(x) {
            let i = choose|i: int| 0 <= i < parts.len() && #[trigger] parts[i].contains(x);
            if i < parts.len() - 1 {
                assert(front[i].contains(x));
            }
        }
    }
}

/// An element is in `a + b` exactly when it is in `a` or in `b`.
pub proof fn lemma_append_contains<A>(a: Seq<A>, b: Seq<A>, x: A)
    ensures
        (a + b).contains(x) <==> a.contains(x) || b.contains(x),
{
    if (a + b).contains(x) {
        let i = choose|i: int| 0 <= i < (a + b).len() && (a + b)[i] == x;
        if i < a.len() {
            assert(a[i] == x);
        } else {
            assert(b[i - a.len()] == x);
        }
    }
    if a.contains(x) {
        let i = choose|i: int| 0 <= i < a.len() && a[i] == x;
        assert((a + b)[i] == x);
    }
    if b.contains(x) {
        let i = choose|i: int| 0 <= i < b.len() && b[i] == x;
        assert((a + b)[a.len() + i] == x);
    }
}

/// Summing with one more element in front adds it to the sum.
pub proof fn lemma_sum_prepend(x: nat, s: Seq<nat>)
    ensures
        sum(seq![x] + s) == x + sum(s),
    decreases s.len(),
{
    if s.len() == 0 {
        reveal_with_fuel(sum, 2);
        assert(seq![x] + s =~= seq![x]);
        assert(seq![x].drop_last() =~= Seq::<nat>::empty());
    } else {
        assert((seq![x] + s).drop_last() =~= seq![x] + s.drop_last());
        lemma_sum_prepend(x, s.drop_last());
    }
}

} // verus!
