//! Dense matrices: construction, access to rows and columns, and arithmetic.
use vstd::prelude::*;
use crate::algebra::{
    column_of, diagonal_matrix, grid, inner_defined, inner_prefix, inner_step_defined, is_matrix, matrix_product, matrix_product_defined, matrix_scaled,
    matrix_scaled_defined, matrix_sum, matrix_sum_defined, product_entry_defined, transposed,
    zero_matrix,
};
use crate::error::LinalgError;
use crate::scalar::Scalar;

pub use crate::decomposition::LUPDecomposed;

verus! {

/// A dense matrix, stored as its rows.
#[derive(Debug)]
pub struct Matrix<T> {
    /// The rows, each from left to right.
    pub v: Vec<Vec<T>>,
    /// The number of rows and the number of columns.
    pub shape: (usize, usize),
}

impl<T> View for Matrix<T> {
    type V = Seq<Seq<T>>;

    /// The rows of the matrix.
    open spec fn view(&self) -> Seq<Seq<T>> {
        grid(self.v@)
    }
}

impl<T: Scalar> Matrix<T> {
    /// The invariant of a matrix: its rows form a rectangle with at least one
    /// row and one column, and the recorded shape is that of the rectangle.
    pub open spec fn wf(&self) -> bool {
        &&& is_matrix(self@)
        &&& self.shape.0 == self@.len()
        &&& self.shape.1 == self@[0].len()
    }

    /// Builds the matrix that has the given rows. The rows are refused unless
    /// there is at least one, they are not empty and all have one length.
    pub fn new(v: Vec<Vec<T>>) -> (r: Result<Self, LinalgError>)
        ensures
            is_matrix(grid(v@)) <==> r is Ok,
            r matches Ok(m) ==> m.wf() && m.v == v,
            r matches Err(e) ==> e == LinalgError::RaggedMatrix,
    {
        let rows = v.len();
        if rows == 0 {
            return Err(LinalgError::RaggedMatrix);
        }
        let cols = v[0].len();
        if cols == 0 {
            return Err(LinalgError::RaggedMatrix);
        }
        let mut i: usize = 1;
        while i < rows
            invariant
                1 <= i <= rows,
                rows == v.len(),
                cols == v[0].len(),
                forall|k: int| 0 <= k < i ==> (#[trigger] v[k]).len() == cols,
            decreases rows - i,
        {
            if v[i].len() != cols {
                assert(grid(v@)[i as int].len() != grid(v@)[0].len());
                return Err(LinalgError::RaggedMatrix);
            }
            i += 1;
        }
        assert(forall|k: int| 0 <= k < v.len() ==> (#[trigger] grid(v@)[k]).len() == cols);
        Ok(Matrix { v, shape: (rows, cols) })
    }

    /// Wraps rows that are known to form a rectangle.
    pub(crate) fn from_rows(v: Vec<Vec<T>>) -> (r: Self)
        requires
            is_matrix(grid(v@)),
        ensures
            r.wf(),
            r.v == v,
    {
        let rows = v.len();
        let cols = v[0].len();
        Matrix { v, shape: (rows, cols) }
    }

    /// The number of rows and the number of columns.
    pub fn shape(&self) -> (s: (usize, usize))
        ensures
            s == self.shape,
    {
        self.shape
    }

    /// Whether the matrix has as many rows as columns.
    #[allow(non_snake_case)]
    pub fn isSquare(&self) -> (b: bool)
        ensures
            b == (self.shape.0 == self.shape.1),
    {
        self.shape.0 == self.shape.1
    }

    /// The matrix of `n` rows and `m` columns whose entries are all zero.
    pub fn zeroes(n: usize, m: usize) -> (r: Self)
        requires
            n >= 1,
            m >= 1,
        ensures
            r.wf(),
            r.shape == (n, m),
            r@ == zero_matrix::<T>(n as nat, m as nat),
    {
        let mut rows: Vec<Vec<T>> = Vec::new();
        let mut i: usize = 0;
        while i < n
            invariant
                i <= n,
                rows.len() == i,
                forall|r: int|
                    0 <= r < i ==> (#[trigger] rows[r])@ == zero_matrix::<T>(
                        n as nat,
                        m as nat,
                    )[r],
            decreases n - i,
        {
            let mut row: Vec<T> = Vec::new();
            let mut j: usize = 0;
            while j < m
                invariant
                    j <= m,
                    row.len() == j,
                    forall|c: int| 0 <= c < j ==> #[trigger] row[c] == T::zero_value(),
                decreases m - j,
            {
                row.push(T::zero());
                j += 1;
            }
            rows.push(row);
            i += 1;
        }
        Self::from_rows(rows)
    }

    /// Row `n` as a matrix of one row, refused if there is no such row.
    pub fn row(&self, n: usize) -> (r: Result<Self, LinalgError>)
        requires
            self.wf(),
        ensures
            n < self.shape.0 <==> r is Ok,
            r matches Ok(m) ==> m.wf() && m.shape == (1usize, self.shape.1) && m@
                == seq![self@[n as int]],
            r matches Err(e) ==> e == LinalgError::IndexOutOfBounds,
    {
        if n >= self.shape.0 {
            return Err(LinalgError::IndexOutOfBounds);
        }
        let cols = self.shape.1;
        assert(self@[n as int].len() == self@[0].len());
        let mut row: Vec<T> = Vec::new();
        let mut j: usize = 0;
        while j < cols
            invariant
                n < self.v.len(),
                cols == self.v[n as int].len(),
                j <= cols,
                row.len() == j,
                forall|c: int| 0 <= c < j ==> #[trigger] row[c] == self.v[n as int][c],
            decreases cols - j,
        {
            row.push(self.v[n][j]);
            j += 1;
        }
        assert(row@ =~= self@[n as int]);
        let mut rows: Vec<Vec<T>> = Vec::new();
        rows.push(row);
        Ok(Self::from_rows(rows))
    }

    /// Column `n` as a matrix of one column, refused if there is no such
    /// column.
    pub fn column(&self, n: usize) -> (r: Result<Self, LinalgError>)
        requires
            self.wf(),
        ensures
            n < self.shape.1 <==> r is Ok,
            r matches Ok(m) ==> m.wf() && m.shape == (self.shape.0, 1usize) && m@ == Seq::new(
                self@.len(),
                |i: int| seq![self@[i][n as int]],
            ),
            r matches Err(e) ==> e == LinalgError::IndexOutOfBounds,
    {
        if n >= self.shape.1 {
            return Err(LinalgError::IndexOutOfBounds);
        }
        let count = self.shape.0;
        let ghost target = Seq::new(self@.len(), |i: int| seq![self@[i][n as int]]);
        let mut rows: Vec<Vec<T>> = Vec::new();
        let mut i: usize = 0;
        while i < count
            invariant
                self.wf(),
                count == self.shape.0,
                n < self.shape.1,
                target == Seq::new(self@.len(), |i: int| seq![self@[i][n as int]]),
                i <= count,
                rows.len() == i,
                forall|r: int| 0 <= r < i ==> (#[trigger] rows[r])@ == target[r],
            decreases count - i,
        {
            assert(self@[i as int].len() == self@[0].len());
            let mut row: Vec<T> = Vec::new();
            row.push(self.v[i][n]);
            rows.push(row);
            i += 1;
        }
        Ok(Self::from_rows(rows))
    }

    /// The square matrix with the given values on its diagonal and zero
    /// elsewhere. There is at least one value.
    pub fn diag(v: Vec<T>) -> (r: Self)
        requires
            v.len() >= 1,
        ensures
            r.wf(),
            r.shape == (v.len(), v.len()),
            r@ == diagonal_matrix(v@),
    {
        let n = v.len();
        let mut rows: Vec<Vec<T>> = Vec::new();
        let mut i: usize = 0;
        while i < n
            invariant
                n == v.len(),
                i <= n,
                rows.len() == i,
                forall|r: int| 0 <= r < i ==> (#[trigger] rows[r])@ == diagonal_matrix(v@)[r],
            decreases n - i,
        {
            let mut row: Vec<T> = Vec::new();
            let mut j: usize = 0;
            while j < n
                invariant
                    n == v.len(),
                    i < n,
                    j <= n,
                    row.len() == j,
                    forall|c: int| 0 <= c < j ==> #[trigger] row[c] == diagonal_matrix(v@)[i as int][c],
                decreases n - j,
            {
                if i == j {
                    row.push(v[i]);
                } else {
                    row.push(T::zero());
                }
                j += 1;
            }
            rows.push(row);
            i += 1;
        }
        Self::from_rows(rows)
    }

    /// The entry-wise sum, refused unless the two matrices have one shape.
    pub fn add(&self, other: &Self) -> (r: Result<Self, LinalgError>)
        requires
            self.wf(),
            other.wf(),
            self.shape == other.shape ==> matrix_sum_defined(self@, other@),
        ensures
            self.shape == other.shape <==> r is Ok,
            r matches Ok(m) ==> m.wf() && m.shape == self.shape && m@ == matrix_sum(
                self@,
                other@,
            ),
            r matches Err(e) ==> e == LinalgError::ShapeMismatch,
    {
        if self.shape.0 != other.shape.0 || self.shape.1 != other.shape.1 {
            return Err(LinalgError::ShapeMismatch);
        }
        let n = self.shape.0;
        let m = self.shape.1;
        let mut rows: Vec<Vec<T>> = Vec::new();
        let mut i: usize = 0;
        while i < n
            invariant
                self.wf(),
                other.wf(),
                self.shape == other.shape,
                self.shape == (n, m),
                matrix_sum_defined(self@, other@),
                i <= n,
                rows.len() == i,
                forall|r: int| 0 <= r < i ==> (#[trigger] rows[r])@ == matrix_sum(self@, other@)[r],
            decreases n - i,
        {
            let mut row: Vec<T> = Vec::new();
            let mut j: usize = 0;
            while j < m
                invariant
                    self.wf(),
                    other.wf(),
                    self.shape == other.shape,
                    self.shape == (n, m),
                    matrix_sum_defined(self@, other@),
                    i < n,
                    self@[i as int].len() == m,
                    other@[i as int].len() == m,
                    j <= m,
                    row.len() == j,
                    forall|c: int| 0 <= c < j ==> #[trigger] row[c] == matrix_sum(self@, other@)[i as int][c],
                decreases m - j,
            {
                row.push(self.v[i][j].plus(other.v[i][j]));
                j += 1;
            }
            rows.push(row);
            i += 1;
        }
        Ok(Self::from_rows(rows))
    }

    /// The transpose: entry `[j][i]` of the result is entry `[i][j]` of
    /// `self`.
    pub fn transpose(&self) -> (r: Self)
        requires
            self.wf(),
        ensures
            r.wf(),
            r.shape == (self.shape.1, self.shape.0),
            r@ == transposed(self@),
    {
        let n = self.shape.0;
        let m = self.shape.1;
        let mut rows: Vec<Vec<T>> = Vec::new();
        let mut j: usize = 0;
        while j < m
            invariant
                self.wf(),
                self.shape == (n, m),
                j <= m,
                rows.len() == j,
                forall|r: int| 0 <= r < j ==> (#[trigger] rows[r])@ == transposed(self@)[r],
            decreases m - j,
        {
            let mut row: Vec<T> = Vec::new();
            let mut i: usize = 0;
            while i < n
                invariant
                    self.wf(),
                    self.shape == (n, m),
                    j < m,
                    i <= n,
                    row.len() == i,
                    forall|c: int| 0 <= c < i ==> #[trigger] row[c] == transposed(self@)[j as int][c],
                decreases n - i,
            {
                assert(self@[i as int].len() == m);
                row.push(self.v[i][j]);
                i += 1;
            }
            rows.push(row);
            j += 1;
        }
        Self::from_rows(rows)
    }

    /// Every entry multiplied by `n`.
    pub fn scalar(&self, n: T) -> (r: Self)
        requires
            self.wf(),
            matrix_scaled_defined(self@, n),
        ensures
            r.wf(),
            r.shape == self.shape,
            r@ == matrix_scaled(self@, n),
    {
        let count = self.shape.0;
        let m = self.shape.1;
        let mut rows: Vec<Vec<T>> = Vec::new();
        let mut i: usize = 0;
        while i < count
            invariant
                self.wf(),
                self.shape == (count, m),
                matrix_scaled_defined(self@, n),
                i <= count,
                rows.len() == i,
                forall|r: int| 0 <= r < i ==> (#[trigger] rows[r])@ == matrix_scaled(self@, n)[r],
            decreases count - i,
        {
            let mut row: Vec<T> = Vec::new();
            let mut j: usize = 0;
            while j < m
                invariant
                    self.wf(),
                    self.shape == (count, m),
                    matrix_scaled_defined(self@, n),
                    i < count,
                    self@[i as int].len() == m,
                    j <= m,
                    row.len() == j,
                    forall|c: int| 0 <= c < j ==> #[trigger] row[c] == matrix_scaled(self@, n)[i as int][c],
                decreases m - j,
            {
                row.push(self.v[i][j].times(n));
                j += 1;
            }
            rows.push(row);
            i += 1;
        }
        Self::from_rows(rows)
    }

    /// The product of two matrices of which the first has as many columns as
    /// the second has rows.
    pub(crate) fn product(&self, other: &Self) -> (r: Self)
        requires
            self.wf(),
            other.wf(),
            self.shape.1 == other.shape.0,
            matrix_product_defined(self@, other@),
        ensures
            r.wf(),
            r@ == matrix_product(self@, other@),
            r.shape == (self.shape.0, other.shape.1),
    {
        let n = self.shape.0;
        let m = self.shape.1;
        let p = other.shape.1;
        let mut rows: Vec<Vec<T>> = Vec::new();
        let mut i: usize = 0;
        while i < n
            invariant
                self.wf(),
                other.wf(),
                n == self.shape.0,
                m == self.shape.1,
                m == other.shape.0,
                p == other.shape.1,
                matrix_product_defined(self@, other@),
                i <= n,
                rows.len() == i,
                forall|r: int| 0 <= r < i ==> (#[trigger] rows[r])@ == matrix_product(self@, other@)[r],
            decreases n - i,
        {
            let mut row: Vec<T> = Vec::new();
            let mut j: usize = 0;
            while j < p
                invariant
                    self.wf(),
                    other.wf(),
                    n == self.shape.0,
                    m == self.shape.1,
                    m == other.shape.0,
                    p == other.shape.1,
                    matrix_product_defined(self@, other@),
                    i < n,
                    j <= p,
                    row.len() == j,
                    forall|c: int| 0 <= c < j ==> #[trigger] row[c] == matrix_product(self@, other@)[i as int][c],
                decreases p - j,
            {
                let ghost x = self@[i as int];
                let ghost y = column_of(other@, j as int);
                assert(product_entry_defined(self@, other@, i as int, j as int));
                let mut acc = T::zero();
                let mut k: usize = 0;
                while k < m
                    invariant
                        self.wf(),
                        other.wf(),
                        m == self.shape.1,
                        m == other.shape.0,
                        i < self.shape.0,
                        j < other.shape.1,
                        x == self@[i as int],
                        y == column_of(other@, j as int),
                        inner_defined(x, y),
                        k <= m,
                        acc == inner_prefix(x, y, k as int),
                    decreases m - k,
                {
                    assert(inner_step_defined(x, y, k as int));
                    let term = self.v[i][k].times(other.v[k][j]);
                    acc = acc.plus(term);
                    k += 1;
                }
                row.push(acc);
                j += 1;
            }
            rows.push(row);
            i += 1;
        }
        Self::from_rows(rows)
    }

    /// The matrix product, refused unless `self` has as many columns as
    /// `other` has rows.
    pub fn mul(&self, other: &Self) -> (r: Result<Self, LinalgError>)
        requires
            self.wf(),
            other.wf(),
            self.shape.1 == other.shape.0 ==> matrix_product_defined(self@, other@),
        ensures
            self.shape.1 == other.shape.0 <==> r is Ok,
            r matches Ok(m) ==> m.wf() && m.shape == (self.shape.0, other.shape.1) && m@
                == matrix_product(self@, other@),
            r matches Err(e) ==> e == LinalgError::ShapeMismatch,
    {
        if self.shape.1 != other.shape.0 {
            Err(LinalgError::ShapeMismatch)
        } else {
            Ok(self.product(other))
        }
    }
}

} // verus!
