//! The dense matrix value type: a rectangular row-major grid with
//! construction, transposition, elementwise map, addition (matrix and
//! scalar) and matrix multiplication.

use crate::element::Element;
use crate::sums::{lemma_sum_push, sum};
use vstd::prelude::*;

verus! {

/// A dense rectangular grid of elements of type `T`, stored row-major:
/// `values` holds `rows` rows of `cols` elements each.
#[derive(Clone, Debug, PartialEq)]
pub struct Matrix<T> {
    pub values: Vec<Vec<T>>,
    pub rows: usize,
    pub cols: usize,
}

/// The transpose of a grid: cell `(j, i)` of the result holds cell
/// `(i, j)` of the argument.
pub open spec fn transpose_grid<T>(g: Seq<Seq<T>>, rows: int, cols: int) -> Seq<Seq<T>> {
    Seq::new(cols as nat, |j: int| Seq::new(rows as nat, |i: int| g[i][j]))
}

/// The elementwise sum of two grids of the given shape.
pub open spec fn add_grid<T: Element>(a: Seq<Seq<T>>, b: Seq<Seq<T>>, rows: int, cols: int) -> Seq<
    Seq<T>,
> {
    Seq::new(rows as nat, |i: int| Seq::new(cols as nat, |j: int| a[i][j].add_spec(b[i][j])))
}

/// The grid with the scalar added to every element.
pub open spec fn scalar_add_grid<T: Element>(g: Seq<Seq<T>>, s: T, rows: int, cols: int) -> Seq<
    Seq<T>,
> {
    Seq::new(rows as nat, |i: int| Seq::new(cols as nat, |j: int| g[i][j].add_spec(s)))
}

/// One cell of a matrix product: the sum over `k < inner` of
/// `a[i][k] * b[k][j]`, accumulated from zero.
pub open spec fn mul_cell<T: Element>(
    a: Seq<Seq<T>>,
    b: Seq<Seq<T>>,
    i: int,
    j: int,
    inner: int,
) -> T {
    sum(Seq::new(inner as nat, |k: int| a[i][k].mul_spec(b[k][j])))
}

/// The product of a `rows x inner` grid with an `inner x cols` grid.
pub open spec fn mul_grid<T: Element>(
    a: Seq<Seq<T>>,
    b: Seq<Seq<T>>,
    rows: int,
    inner: int,
    cols: int,
) -> Seq<Seq<T>> {
    Seq::new(rows as nat, |i: int| Seq::new(cols as nat, |j: int| mul_cell(a, b, i, j, inner)))
}

impl<T: Element> Matrix<T> {
    /// The grid as a mathematical sequence of rows.
    pub open spec fn grid(self) -> Seq<Seq<T>> {
        self.values@.map_values(|r: Vec<T>| r@)
    }

    /// The declared shape matches the stored grid and the grid is
    /// rectangular: `rows` rows of `cols` elements each.
    pub open spec fn wf(self) -> bool {
        &&& self.values@.len() == self.rows
        &&& forall|i: int| 0 <= i < self.rows ==> #[trigger] self.values@[i]@.len() == self.cols
    }

    /// Build a matrix from a caller-supplied nested vector of rows. The
    /// row count is the outer length and the column count is the first
    /// row's length (zero if there are no rows); the rows themselves are
    /// taken as given, so the result is well-formed exactly when the
    /// input was rectangular.
    pub fn from(vector: Vec<Vec<T>>) -> (r: Self)
        ensures
            r.rows == vector@.len(),
            r.cols == (if vector@.len() == 0 {
                0nat
            } else {
                vector@[0]@.len()
            }),
            r.grid() == vector@.map_values(|row: Vec<T>| row@),
            r.wf() <==> (forall|i: int|
                0 <= i < vector@.len() ==> #[trigger] vector@[i]@.len() == vector@[0]@.len()),
    {
        let rows = vector.len();
        let cols = if rows == 0 {
            0
        } else {
            vector[0].len()
        };
        let m = Matrix { values: vector, rows, cols };
        proof {
            assert(forall|i: int|
                0 <= i < vector@.len() ==> #[trigger] vector@[i]@.len() == m.grid()[i].len());
            assert(forall|i: int|
                0 <= i < m.rows ==> #[trigger] m.grid()[i].len() == vector@[i]@.len());
        }
        m
    }

    /// Allocate a `rows x columns` matrix with every element set to the
    /// additive identity of `T`.
    pub fn alloca(rows: usize, columns: usize) -> (r: Self)
        ensures
            r.wf(),
            r.rows == rows,
            r.cols == columns,
            forall|i: int, j: int|
                0 <= i < rows && 0 <= j < columns ==> #[trigger] r.grid()[i][j] == T::zero_spec(),
    {
        let mut values: Vec<Vec<T>> = Vec::new();
        let mut i: usize = 0;
        while i < rows
            invariant
                i <= rows,
                values@.len() == i,
                forall|p: int| 0 <= p < i ==> #[trigger] values@[p]@.len() == columns,
                forall|p: int, q: int|
                    0 <= p < i && 0 <= q < columns ==> #[trigger] values@[p]@[q]
                        == T::zero_spec(),
            decreases rows - i,
        {
            let mut row: Vec<T> = Vec::new();
            let mut j: usize = 0;
            while j < columns
                invariant
                    j <= columns,
                    row@.len() == j,
                    forall|q: int| 0 <= q < j ==> #[trigger] row@[q] == T::zero_spec(),
                decreases columns - j,
            {
                row.push(T::zero());
                j += 1;
            }
            values.push(row);
            i += 1;
        }
        Matrix { values, rows, cols: columns }
    }

    /// Transpose: consume the matrix and produce the `cols x rows`
    /// matrix whose cell `(j, i)` holds this matrix's cell `(i, j)`.
    #[allow(non_snake_case)]
    pub fn T(self) -> (r: Self)
        requires
            self.wf(),
        ensures
            r.wf(),
            r.rows == self.cols,
            r.cols == self.rows,
            r.grid() == transpose_grid(self.grid(), self.rows as int, self.cols as int),
            forall|i: int, j: int|
                0 <= i < self.rows && 0 <= j < self.cols ==> #[trigger] r.grid()[j][i]
                    == self.grid()[i][j],
    {
        let mut values: Vec<Vec<T>> = Vec::new();
        let mut j: usize = 0;
        while j < self.cols
            invariant
                self.wf(),
                j <= self.cols,
                values@.len() == j,
                forall|q: int| 0 <= q < j ==> #[trigger] values@[q]@.len() == self.rows,
                forall|q: int, p: int|
                    0 <= q < j && 0 <= p < self.rows ==> #[trigger] values@[q]@[p]
                        == self.grid()[p][q],
            decreases self.cols - j,
        {
            let mut row: Vec<T> = Vec::new();
            let mut i: usize = 0;
            while i < self.rows
                invariant
                    self.wf(),
                    j < self.cols,
                    i <= self.rows,
                    row@.len() == i,
                    forall|p: int| 0 <= p < i ==> #[trigger] row@[p] == self.grid()[p][j as int],
                decreases self.rows - i,
            {
                row.push(self.values[i][j].dup());
                i += 1;
            }
            values.push(row);
            j += 1;
        }
        let m = Matrix { values, rows: self.cols, cols: self.rows };
        proof {
            assert(m.grid() =~~= transpose_grid(
                self.grid(),
                self.rows as int,
                self.cols as int,
            ));
        }
        m
    }

    /// Apply a function to every element, preserving shape and position.
    /// Every output cell is a value the function may return for the
    /// corresponding input cell.
    pub fn mapped<C: Fn(T) -> T>(self, func: &C) -> (r: Self)
        requires
            self.wf(),
            forall|i: int, j: int|
                0 <= i < self.rows && 0 <= j < self.cols ==> call_requires(
                    func,
                    (#[trigger] self.grid()[i][j],),
                ),
        ensures
            r.wf(),
            r.rows == self.rows,
            r.cols == self.cols,
            forall|i: int, j: int|
                0 <= i < self.rows && 0 <= j < self.cols ==> call_ensures(
                    func,
                    (self.grid()[i][j],),
                    #[trigger] r.grid()[i][j],
                ),
    {
        let mut values: Vec<Vec<T>> = Vec::new();
        let mut i: usize = 0;
        while i < self.rows
            invariant
                self.wf(),
                forall|p: int, q: int|
                    0 <= p < self.rows && 0 <= q < self.cols ==> call_requires(
                        func,
                        (#[trigger] self.grid()[p][q],),
                    ),
                i <= self.rows,
                values@.len() == i,
                forall|p: int| 0 <= p < i ==> #[trigger] values@[p]@.len() == self.cols,
                forall|p: int, q: int|
                    0 <= p < i && 0 <= q < self.cols ==> call_ensures(
                        func,
                        (self.grid()[p][q],),
                        #[trigger] values@[p]@[q],
                    ),
            decreases self.rows - i,
        {
            let mut row: Vec<T> = Vec::new();
            let mut q: usize = 0;
            while q < self.cols
                invariant
                    self.wf(),
                    forall|p2: int, q2: int|
                        0 <= p2 < self.rows && 0 <= q2 < self.cols ==> call_requires(
                            func,
                            (#[trigger] self.grid()[p2][q2],),
                        ),
                    i < self.rows,
                    q <= self.cols,
                    row@.len() == q,
                    forall|q2: int|
                        0 <= q2 < q ==> call_ensures(
                            func,
                            (self.grid()[i as int][q2],),
                            #[trigger] row@[q2],
                        ),
                decreases self.cols - q,
            {
                proof {
                    assert(self.grid()[i as int][q as int] == self.values@[i as int]@[q as int]);
                }
                row.push(func(self.values[i][q].dup()));
                q += 1;
            }
            values.push(row);
            i += 1;
        }
        Matrix { values, rows: self.rows, cols: self.cols }
    }

    /// Matrix addition: consume both operands and return their
    /// elementwise sum. The operands must have the same shape.
    pub fn add(self, other: Self) -> (r: Self)
        requires
            self.wf(),
            other.wf(),
            self.rows == other.rows,
            self.cols == other.cols,
        ensures
            r.wf(),
            r.rows == self.rows,
            r.cols == self.cols,
            r.grid() == add_grid(self.grid(), other.grid(), self.rows as int, self.cols as int),
            forall|i: int, j: int|
                0 <= i < self.rows && 0 <= j < self.cols ==> #[trigger] r.grid()[i][j]
                    == self.grid()[i][j].add_spec(other.grid()[i][j]),
    {
        let mut values: Vec<Vec<T>> = Vec::new();
        let mut i: usize = 0;
        while i < self.rows
            invariant
                self.wf(),
                other.wf(),
                self.rows == other.rows,
                self.cols == other.cols,
                i <= self.rows,
                values@.len() == i,
                forall|p: int| 0 <= p < i ==> #[trigger] values@[p]@.len() == self.cols,
                forall|p: int, q: int|
                    0 <= p < i && 0 <= q < self.cols ==> #[trigger] values@[p]@[q]
                        == self.grid()[p][q].add_spec(other.grid()[p][q]),
            decreases self.rows - i,
        {
            let mut row: Vec<T> = Vec::new();
            let mut j: usize = 0;
            while j < self.cols
                invariant
                    self.wf(),
                    other.wf(),
                    self.rows == other.rows,
                    self.cols == other.cols,
                    i < self.rows,
                    j <= self.cols,
                    row@.len() == j,
                    forall|q: int|
                        0 <= q < j ==> #[trigger] row@[q] == self.grid()[i as int][q].add_spec(
                            other.grid()[i as int][q],
                        ),
                decreases self.cols - j,
            {
                row.push(self.values[i][j].dup().add(other.values[i][j].dup()));
                j += 1;
            }
            values.push(row);
            i += 1;
        }
        let m = Matrix { values, rows: self.rows, cols: self.cols };
        proof {
            assert(m.grid() =~~= add_grid(
                self.grid(),
                other.grid(),
                self.rows as int,
                self.cols as int,
            ));
        }
        m
    }

    /// Matrix addition guarded by the shape check: `Some` of the sum
    /// when the shapes agree, `None` otherwise.
    pub fn checked_add(self, other: Self) -> (r: Option<Self>)
        requires
            self.wf(),
            other.wf(),
        ensures
            r is Some <==> (self.rows == other.rows && self.cols == other.cols),
            r is Some ==> r->Some_0.wf(),
            r is Some ==> r->Some_0.rows == self.rows && r->Some_0.cols == self.cols,
            r is Some ==> r->Some_0.grid() == add_grid(
                self.grid(),
                other.grid(),
                self.rows as int,
                self.cols as int,
            ),
    {
        if self.rows == other.rows && self.cols == other.cols {
            Some(self.add(other))
        } else {
            None
        }
    }

    /// Scalar addition: consume the matrix and return it with the scalar
    /// added to every element.
    pub fn add_scalar(self, other: T) -> (r: Self)
        requires
            self.wf(),
        ensures
            r.wf(),
            r.rows == self.rows,
            r.cols == self.cols,
            r.grid() == scalar_add_grid(self.grid(), other, self.rows as int, self.cols as int),
            forall|i: int, j: int|
                0 <= i < self.rows && 0 <= j < self.cols ==> #[trigger] r.grid()[i][j]
                    == self.grid()[i][j].add_spec(other),
    {
        let mut values: Vec<Vec<T>> = Vec::new();
        let mut i: usize = 0;
        while i < self.rows
            invariant
                self.wf(),
                i <= self.rows,
                values@.len() == i,
                forall|p: int| 0 <= p < i ==> #[trigger] values@[p]@.len() == self.cols,
                forall|p: int, q: int|
                    0 <= p < i && 0 <= q < self.cols ==> #[trigger] values@[p]@[q]
                        == self.grid()[p][q].add_spec(other),
            decreases self.rows - i,
        {
            let mut row: Vec<T> = Vec::new();
            let mut j: usize = 0;
            while j < self.cols
                invariant
                    self.wf(),
                    i < self.rows,
                    j <= self.cols,
                    row@.len() == j,
                    forall|q: int|
                        0 <= q < j ==> #[trigger] row@[q] == self.grid()[i as int][q].add_spec(
                            other,
                        ),
                decreases self.cols - j,
            {
                row.push(self.values[i][j].dup().add(other.dup()));
                j += 1;
            }
            values.push(row);
            i += 1;
        }
        let m = Matrix { values, rows: self.rows, cols: self.cols };
        proof {
            assert(m.grid() =~~= scalar_add_grid(
                self.grid(),
                other,
                self.rows as int,
                self.cols as int,
            ));
        }
        m
    }

    /// In-place scalar addition: add the scalar to every element,
    /// keeping the shape.
    pub fn add_assign_scalar(&mut self, other: T)
        requires
            old(self).wf(),
        ensures
            final(self).wf(),
            final(self).rows == old(self).rows,
            final(self).cols == old(self).cols,
            final(self).grid() == scalar_add_grid(
                old(self).grid(),
                other,
                old(self).rows as int,
                old(self).cols as int,
            ),
            forall|i: int, j: int|
                0 <= i < old(self).rows && 0 <= j < old(self).cols
                    ==> #[trigger] final(self).grid()[i][j] == old(self).grid()[i][j].add_spec(
                    other,
                ),
    {
        let mut values: Vec<Vec<T>> = Vec::new();
        let mut i: usize = 0;
        while i < self.rows
            invariant
                self == old(self),
                self.wf(),
                i <= self.rows,
                values@.len() == i,
                forall|p: int| 0 <= p < i ==> #[trigger] values@[p]@.len() == self.cols,
                forall|p: int, q: int|
                    0 <= p < i && 0 <= q < self.cols ==> #[trigger] values@[p]@[q]
                        == self.grid()[p][q].add_spec(other),
            decreases self.rows - i,
        {
            let mut row: Vec<T> = Vec::new();
            let mut j: usize = 0;
            while j < self.cols
                invariant
                    self == old(self),
                    self.wf(),
                    i < self.rows,
                    j <= self.cols,
                    row@.len() == j,
                    forall|q: int|
                        0 <= q < j ==> #[trigger] row@[q] == self.grid()[i as int][q].add_spec(
                            other,
                        ),
                decreases self.cols - j,
            {
                row.push(self.values[i][j].dup().add(other.dup()));
                j += 1;
            }
            values.push(row);
            i += 1;
        }
        let ghost prev = *self;
        self.values = values;
        proof {
            assert(self.grid() =~~= scalar_add_grid(
                prev.grid(),
                other,
                prev.rows as int,
                prev.cols as int,
            ));
        }
    }

    /// Matrix multiplication: the left operand's column count must equal
    /// the right operand's row count; cell `(i, j)` of the result is the
    /// sum over `k` of `self[i][k] * other[k][j]`, accumulated from the
    /// additive identity. The result has shape `self.rows x other.cols`.
    pub fn mul(self, other: Self) -> (r: Self)
        requires
            self.wf(),
            other.wf(),
            self.cols == other.rows,
        ensures
            r.wf(),
            r.rows == self.rows,
            r.cols == other.cols,
            r.grid() == mul_grid(
                self.grid(),
                other.grid(),
                self.rows as int,
                self.cols as int,
                other.cols as int,
            ),
            forall|i: int, j: int|
                0 <= i < self.rows && 0 <= j < other.cols ==> #[trigger] r.grid()[i][j]
                    == mul_cell(self.grid(), other.grid(), i, j, self.cols as int),
    {
        let mut values: Vec<Vec<T>> = Vec::new();
        let mut i: usize = 0;
        while i < self.rows
            invariant
                self.wf(),
                other.wf(),
                self.cols == other.rows,
                i <= self.rows,
                values@.len() == i,
                forall|p: int| 0 <= p < i ==> #[trigger] values@[p]@.len() == other.cols,
                forall|p: int, q: int|
                    0 <= p < i && 0 <= q < other.cols ==> #[trigger] values@[p]@[q] == mul_cell(
                        self.grid(),
                        other.grid(),
                        p,
                        q,
                        self.cols as int,
                    ),
            decreases self.rows - i,
        {
            let mut row: Vec<T> = Vec::new();
            let mut j: usize = 0;
            while j < other.cols
                invariant
                    self.wf(),
                    other.wf(),
                    self.cols == other.rows,
                    i < self.rows,
                    j <= other.cols,
                    row@.len() == j,
                    forall|q: int|
                        0 <= q < j ==> #[trigger] row@[q] == mul_cell(
                            self.grid(),
                            other.grid(),
                            i as int,
                            q,
                            self.cols as int,
                        ),
                decreases other.cols - j,
            {
                let mut acc = T::zero();
                let mut k: usize = 0;
                while k < self.cols
                    invariant
                        self.wf(),
                        other.wf(),
                        self.cols == other.rows,
                        i < self.rows,
                        j < other.cols,
                        k <= self.cols,
                        acc == sum(
                            Seq::new(
                                k as nat,
                                |t: int|
                                    self.grid()[i as int][t].mul_spec(other.grid()[t][j as int]),
                            ),
                        ),
                    decreases self.cols - k,
                {
                    let term = self.values[i][k].dup().mul(other.values[k][j].dup());
                    proof {
                        let f = |t: int|
                            self.grid()[i as int][t].mul_spec(other.grid()[t][j as int]);
                        assert(Seq::new((k + 1) as nat, f) =~= Seq::new(k as nat, f).push(
                            self.grid()[i as int][k as int].mul_spec(
                                other.grid()[k as int][j as int],
                            ),
                        ));
                        lemma_sum_push(
                            Seq::new(k as nat, f),
                            self.grid()[i as int][k as int].mul_spec(
                                other.grid()[k as int][j as int],
                            ),
                        );
                    }
                    acc = acc.add(term);
                    k += 1;
                }
                row.push(acc);
                j += 1;
            }
            values.push(row);
            i += 1;
        }
        let m = Matrix { values, rows: self.rows, cols: other.cols };
        proof {
            assert(m.grid() =~~= mul_grid(
                self.grid(),
                other.grid(),
                self.rows as int,
                self.cols as int,
                other.cols as int,
            ));
        }
        m
    }

    /// Matrix multiplication guarded by the conformance check: `Some`
    /// of the product when the left column count equals the right row
    /// count, `None` otherwise.
    pub fn checked_mul(self, other: Self) -> (r: Option<Self>)
        requires
            self.wf(),
            other.wf(),
        ensures
            r is Some <==> self.cols == other.rows,
            r is Some ==> r->Some_0.wf(),
            r is Some ==> r->Some_0.rows == self.rows && r->Some_0.cols == other.cols,
            r is Some ==> r->Some_0.grid() == mul_grid(
                self.grid(),
                other.grid(),
                self.rows as int,
                self.cols as int,
                other.cols as int,
            ),
    {
        if self.cols == other.rows {
            Some(self.mul(other))
        } else {
            None
        }
    }
}

/// A fluent row-appending builder for matrix literals: collect rows one
/// at a time, then hand them to the nested-vector constructor.
pub struct MatrixBuilder<T> {
    pub collected: Vec<Vec<T>>,
}

impl<T: Element> MatrixBuilder<T> {
    /// Start with no rows.
    pub fn new() -> (r: Self)
        ensures
            r.collected@.len() == 0,
    {
        MatrixBuilder { collected: Vec::new() }
    }

    /// Append one row.
    pub fn row(self, row: Vec<T>) -> (r: Self)
        ensures
            r.collected@ == self.collected@.push(row),
    {
        let mut collected = self.collected;
        collected.push(row);
        MatrixBuilder { collected }
    }

    /// Build the matrix from the collected rows, exactly as the
    /// nested-vector constructor would.
    pub fn build(self) -> (r: Matrix<T>)
        ensures
            r.rows == self.collected@.len(),
            r.cols == (if self.collected@.len() == 0 {
                0nat
            } else {
                self.collected@[0]@.len()
            }),
            r.grid() == self.collected@.map_values(|row: Vec<T>| row@),
            r.wf() <==> (forall|i: int|
                0 <= i < self.collected@.len() ==> #[trigger] self.collected@[i]@.len()
                    == self.collected@[0]@.len()),
    {
        Matrix::from(self.collected)
    }
}

} // verus!
