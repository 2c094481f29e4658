//! The algebraic laws of the matrix operations, stated over the
//! mathematical grids that the operations' contracts speak of.

use crate::element::Element;
use crate::matrix::{add_grid, mul_cell, mul_grid, transpose_grid, Matrix};
use crate::sums::{lemma_sum_mul_left, lemma_sum_mul_right, lemma_sum_swap, sum};
use vstd::prelude::*;

verus! {

/// Transposition is an involution: transposing a well-formed matrix
/// twice gives back its grid.
pub proof fn lemma_transpose_involution<T: Element>(m: Matrix<T>)
    requires
        m.wf(),
    ensures
        transpose_grid(
            transpose_grid(m.grid(), m.rows as int, m.cols as int),
            m.cols as int,
            m.rows as int,
        ) == m.grid(),
{
    let t = transpose_grid(m.grid(), m.rows as int, m.cols as int);
    let tt = transpose_grid(t, m.cols as int, m.rows as int);
    assert forall|i: int| 0 <= i < m.rows implies #[trigger] tt[i] == m.grid()[i] by {
        assert(m.grid()[i].len() == m.cols);
        assert(tt[i] =~= m.grid()[i]);
    }
    assert(tt =~= m.grid());
}

/// A matrix of zeros is an additive identity: adding any matrix of the
/// same shape to it gives that matrix back.
pub proof fn lemma_zero_add_identity<T: Element>(z: Matrix<T>, m: Matrix<T>)
    requires
        z.wf(),
        m.wf(),
        z.rows == m.rows,
        z.cols == m.cols,
        forall|i: int, j: int|
            0 <= i < z.rows && 0 <= j < z.cols ==> #[trigger] z.grid()[i][j] == T::zero_spec(),
    ensures
        add_grid(z.grid(), m.grid(), m.rows as int, m.cols as int) == m.grid(),
{
    let s = add_grid(z.grid(), m.grid(), m.rows as int, m.cols as int);
    assert forall|i: int| 0 <= i < m.rows implies #[trigger] s[i] == m.grid()[i] by {
        assert(m.grid()[i].len() == m.cols);
        assert forall|j: int| 0 <= j < m.cols implies #[trigger] s[i][j] == m.grid()[i][j] by {
            T::lemma_add_zero(m.grid()[i][j]);
        }
        assert(s[i] =~= m.grid()[i]);
    }
    assert(s =~= m.grid());
}

/// One cell of the associativity law: with `a` of width `m`, `b` of
/// shape `m x p` and `c` of width `cols_c`, multiplying `(a b)` by `c`
/// and `a` by `(b c)` agree at cell `(i, j)`.
proof fn lemma_mul_cell_assoc<T: Element>(
    a: Seq<Seq<T>>,
    b: Seq<Seq<T>>,
    c: Seq<Seq<T>>,
    i: int,
    j: int,
    rows_a: int,
    m: int,
    p: int,
    cols_c: int,
)
    requires
        0 <= m,
        0 <= p,
        0 <= i < rows_a,
        0 <= j < cols_c,
    ensures
        mul_cell(mul_grid(a, b, rows_a, m, p), c, i, j, p) == mul_cell(
            a,
            mul_grid(b, c, m, p, cols_c),
            i,
            j,
            m,
        ),
{
    let ab = mul_grid(a, b, rows_a, m, p);
    let bc = mul_grid(b, c, m, p, cols_c);
    // The grid of all products a[i][l] * (b[l][k] * c[k][j]).
    let grid = Seq::new(
        p as nat,
        |k: int| Seq::new(m as nat, |l: int| a[i][l].mul_spec(b[l][k].mul_spec(c[k][j]))),
    );
    let lhs_terms = Seq::new(p as nat, |k: int| ab[i][k].mul_spec(c[k][j]));
    let rowsums = Seq::new(p as nat, |k: int| sum(grid[k]));
    assert forall|k: int| 0 <= k < p implies #[trigger] lhs_terms[k] == rowsums[k] by {
        let inner = Seq::new(m as nat, |l: int| a[i][l].mul_spec(b[l][k]));
        let scaled = Seq::new(m as nat, |l: int| (a[i][l].mul_spec(b[l][k])).mul_spec(c[k][j]));
        lemma_sum_mul_right(c[k][j], inner, scaled);
        assert forall|l: int| 0 <= l < m implies #[trigger] scaled[l] == grid[k][l] by {
            T::lemma_mul_assoc(a[i][l], b[l][k], c[k][j]);
        }
        assert(scaled =~= grid[k]);
    }
    assert(lhs_terms =~= rowsums);
    lemma_sum_swap(grid, p, m);
    let colsums = Seq::new(m as nat, |l: int| sum(Seq::new(p as nat, |k: int| grid[k][l])));
    let rhs_terms = Seq::new(m as nat, |l: int| a[i][l].mul_spec(bc[l][j]));
    assert forall|l: int| 0 <= l < m implies #[trigger] colsums[l] == rhs_terms[l] by {
        let col = Seq::new(p as nat, |k: int| grid[k][l]);
        let base = Seq::new(p as nat, |k: int| b[l][k].mul_spec(c[k][j]));
        assert forall|k: int| 0 <= k < p implies #[trigger] col[k] == a[i][l].mul_spec(
            base[k],
        ) by {}
        lemma_sum_mul_left(a[i][l], base, col);
    }
    assert(colsums =~= rhs_terms);
}

/// Matrix multiplication is associative on conformant shapes: with
/// `a.cols == b.rows` and `b.cols == c.rows`, `(a b) c` and `a (b c)`
/// are the same grid.
pub proof fn lemma_mul_associative<T: Element>(a: Matrix<T>, b: Matrix<T>, c: Matrix<T>)
    requires
        a.wf(),
        b.wf(),
        c.wf(),
        a.cols == b.rows,
        b.cols == c.rows,
    ensures
        mul_grid(
            mul_grid(a.grid(), b.grid(), a.rows as int, a.cols as int, b.cols as int),
            c.grid(),
            a.rows as int,
            b.cols as int,
            c.cols as int,
        ) == mul_grid(
            a.grid(),
            mul_grid(b.grid(), c.grid(), b.rows as int, b.cols as int, c.cols as int),
            a.rows as int,
            a.cols as int,
            c.cols as int,
        ),
{
    let n = a.rows as int;
    let m = a.cols as int;
    let p = b.cols as int;
    let q = c.cols as int;
    let lhs = mul_grid(mul_grid(a.grid(), b.grid(), n, m, p), c.grid(), n, p, q);
    let rhs = mul_grid(a.grid(), mul_grid(b.grid(), c.grid(), m, p, q), n, m, q);
    assert forall|i: int| 0 <= i < n implies #[trigger] lhs[i] == rhs[i] by {
        assert forall|j: int| 0 <= j < q implies #[trigger] lhs[i][j] == rhs[i][j] by {
            lemma_mul_cell_assoc(a.grid(), b.grid(), c.grid(), i, j, n, m, p, q);
        }
        assert(lhs[i] =~= rhs[i]);
    }
    assert(lhs =~= rhs);
}

} // verus!
