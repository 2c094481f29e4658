//! Finite sums of element values, used to state what a matrix-product
//! cell is and to prove the algebraic laws about it.

use crate::element::Element;
use vstd::prelude::*;

verus! {

/// The sum of a sequence of elements, folded left to right from zero:
/// an empty sequence sums to the additive identity, and a non-empty one
/// to the sum of its prefix plus its last element.
pub open spec fn sum<T: Element>(s: Seq<T>) -> T
    decreases s.len(),
{
    if s.len() == 0 {
        T::zero_spec()
    } else {
        sum(s.drop_last()).add_spec(s.last())
    }
}

/// Appending one element adds it onto the sum.
pub proof fn lemma_sum_push<T: Element>(s: Seq<T>, x: T)
    ensures
        sum(s.push(x)) == sum(s).add_spec(x),
{
    assert(s.push(x).drop_last() =~= s);
}

/// A sequence of zeros sums to zero.
pub proof fn lemma_sum_zero<T: Element>(s: Seq<T>)
    requires
        forall|k: int| 0 <= k < s.len() ==> s[k] == T::zero_spec(),
    ensures
        sum(s) == T::zero_spec(),
    decreases s.len(),
{
    if s.len() > 0 {
        lemma_sum_zero(s.drop_last());
        T::lemma_add_zero(T::zero_spec());
    }
}

/// Summing the pointwise sum of two sequences gives the sum of their
/// sums.
pub proof fn lemma_sum_pointwise_add<T: Element>(s: Seq<T>, t: Seq<T>, u: Seq<T>)
    requires
        t.len() == s.len(),
        u.len() == s.len(),
        forall|k: int| 0 <= k < s.len() ==> u[k] == s[k].add_spec(t[k]),
    ensures
        sum(u) == sum(s).add_spec(sum(t)),
    decreases s.len(),
{
    if s.len() == 0 {
        T::lemma_add_zero(T::zero_spec());
    } else {
        lemma_sum_pointwise_add(s.drop_last(), t.drop_last(), u.drop_last());
        let sp = sum(s.drop_last());
        let tp = sum(t.drop_last());
        let x = s.last();
        let y = t.last();
        T::lemma_add_assoc(sp.add_spec(tp), x, y);
        T::lemma_add_assoc(sp, tp, x);
        T::lemma_add_comm(tp, x);
        T::lemma_add_assoc(sp, x, tp);
        T::lemma_add_assoc(sp.add_spec(x), tp, y);
    }
}

/// Multiplying every element by the same value on the left scales the
/// sum by that value.
pub proof fn lemma_sum_mul_left<T: Element>(c: T, s: Seq<T>, t: Seq<T>)
    requires
        t.len() == s.len(),
        forall|k: int| 0 <= k < s.len() ==> t[k] == c.mul_spec(#[trigger] s[k]),
    ensures
        sum(t) == c.mul_spec(sum(s)),
    decreases s.len(),
{
    if s.len() == 0 {
        T::lemma_mul_zero(c);
    } else {
        lemma_sum_mul_left(c, s.drop_last(), t.drop_last());
        T::lemma_distributive_left(c, sum(s.drop_last()), s.last());
    }
}

/// Multiplying every element by the same value on the right scales the
/// sum by that value.
pub proof fn lemma_sum_mul_right<T: Element>(c: T, s: Seq<T>, t: Seq<T>)
    requires
        t.len() == s.len(),
        forall|k: int| 0 <= k < s.len() ==> t[k] == (#[trigger] s[k]).mul_spec(c),
    ensures
        sum(t) == sum(s).mul_spec(c),
    decreases s.len(),
{
    if s.len() == 0 {
        T::lemma_mul_zero(c);
    } else {
        lemma_sum_mul_right(c, s.drop_last(), t.drop_last());
        T::lemma_distributive_right(sum(s.drop_last()), s.last(), c);
    }
}

/// Summing a rectangular grid of elements row by row gives the same
/// total as summing it column by column.
pub proof fn lemma_sum_swap<T: Element>(g: Seq<Seq<T>>, rows: int, cols: int)
    requires
        0 <= rows,
        0 <= cols,
        g.len() == rows,
        forall|k: int| 0 <= k < rows ==> (#[trigger] g[k]).len() == cols,
    ensures
        sum(Seq::new(rows as nat, |k: int| sum(g[k]))) == sum(
            Seq::new(cols as nat, |l: int| sum(Seq::new(rows as nat, |k: int| g[k][l]))),
        ),
    decreases rows,
{
    if rows == 0 {
        let colsums = Seq::new(cols as nat, |l: int| sum(Seq::new(0nat, |k: int| g[k][l])));
        assert forall|l: int| 0 <= l < cols implies #[trigger] colsums[l] == T::zero_spec() by {
            assert(Seq::new(0nat, |k: int| g[k][l]) =~= Seq::<T>::empty());
        }
        lemma_sum_zero(colsums);
        assert(Seq::new(0nat, |k: int| sum(g[k])) =~= Seq::<T>::empty());
    } else {
        let h = g.drop_last();
        lemma_sum_swap(h, rows - 1, cols);
        let rowsums = Seq::new(rows as nat, |k: int| sum(g[k]));
        let rowsums_h = Seq::new((rows - 1) as nat, |k: int| sum(h[k]));
        assert(rowsums =~= rowsums_h.push(sum(g[rows - 1])));
        lemma_sum_push(rowsums_h, sum(g[rows - 1]));
        let colsums = Seq::new(cols as nat, |l: int| sum(Seq::new(rows as nat, |k: int| g[k][l])));
        let colsums_h = Seq::new(
            cols as nat,
            |l: int| sum(Seq::new((rows - 1) as nat, |k: int| h[k][l])),
        );
        let lastrow = Seq::new(cols as nat, |l: int| g[rows - 1][l]);
        assert forall|l: int| 0 <= l < cols implies #[trigger] colsums[l] == colsums_h[l].add_spec(
            lastrow[l],
        ) by {
            let col = Seq::new(rows as nat, |k: int| g[k][l]);
            let col_h = Seq::new((rows - 1) as nat, |k: int| h[k][l]);
            assert(col =~= col_h.push(g[rows - 1][l]));
            lemma_sum_push(col_h, g[rows - 1][l]);
        }
        lemma_sum_pointwise_add(colsums_h, lastrow, colsums);
        assert(lastrow =~= g[rows - 1]);
    }
}

} // verus!
