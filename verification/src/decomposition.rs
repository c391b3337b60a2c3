//! The pivoted LU decomposition of a square matrix, and the determinant
//! computed from it.
use vstd::prelude::*;
use crate::algebra::{grid, has_shape, matrix_product, matrix_product_defined};
use crate::matrix::Matrix;
use crate::pivoting::{is_permutation, pivot_defined, pivot_matrix, pivot_order};
use crate::scalar::Scalar;

verus! {

/// Entry `[i][j]` of the upper factor of `pa`: zero below the diagonal, and
/// on and above it the entry of `pa` less the sum given by `upper_sum`.
pub open spec fn upper_entry<T: Scalar>(pa: Seq<Seq<T>>, i: int, j: int) -> T
    decreases i + j, 1int, 0int,
{
    if 0 <= i <= j {
        pa[i][j].difference(upper_sum(pa, i, j, i))
    } else {
        T::zero_value()
    }
}

/// The sum, over `k` below `m`, of entry `[k][j]` of the upper factor times
/// entry `[i][k]` of the lower factor, added up from the left starting with
/// zero. It serves entry `[i][j]` of the upper factor, so `m` is at most `i`
/// and `i` at most `j`.
pub open spec fn upper_sum<T: Scalar>(pa: Seq<Seq<T>>, i: int, j: int, m: int) -> T
    decreases i + j, 0int, m,
{
    if 0 < m <= i <= j {
        upper_sum(pa, i, j, m - 1).sum(
            upper_entry(pa, m - 1, j).product(lower_entry(pa, i, m - 1)),
        )
    } else {
        T::zero_value()
    }
}

/// Entry `[i][j]` of the lower factor of `pa`: zero above the diagonal, and
/// on and below it the entry of `pa` less the sum given by `lower_sum`,
/// divided by the pivot, which is entry `[j][j]` of the upper factor.
pub open spec fn lower_entry<T: Scalar>(pa: Seq<Seq<T>>, i: int, j: int) -> T
    decreases i + j, 2int, 0int,
{
    if 0 <= j <= i {
        pa[i][j].difference(lower_sum(pa, i, j, j)).quotient(upper_entry(pa, j, j))
    } else {
        T::zero_value()
    }
}

/// The sum, over `k` below `m`, of entry `[i][k]` of the lower factor times
/// entry `[k][j]` of the upper factor, added up from the left starting with
/// zero. It serves entry `[i][j]` of the lower factor, so `m` is at most `j`
/// and `j` at most `i`.
pub open spec fn lower_sum<T: Scalar>(pa: Seq<Seq<T>>, i: int, j: int, m: int) -> T
    decreases i + j, 0int, m,
{
    if 0 < m <= j <= i {
        lower_sum(pa, i, j, m - 1).sum(
            lower_entry(pa, i, m - 1).product(upper_entry(pa, m - 1, j)),
        )
    } else {
        T::zero_value()
    }
}

/// The upper-triangular factor of the square matrix `pa`.
pub open spec fn upper_factor<T: Scalar>(pa: Seq<Seq<T>>) -> Seq<Seq<T>> {
    Seq::new(pa.len(), |i: int| Seq::new(pa.len(), |j: int| upper_entry(pa, i, j)))
}

/// The lower-triangular factor of the square matrix `pa`.
pub open spec fn lower_factor<T: Scalar>(pa: Seq<Seq<T>>) -> Seq<Seq<T>> {
    Seq::new(pa.len(), |i: int| Seq::new(pa.len(), |j: int| lower_entry(pa, i, j)))
}

/// Whether term `k` of the sum for entry `[i][j]` of the upper factor can be
/// computed and added.
pub open spec fn upper_step_defined<T: Scalar>(pa: Seq<Seq<T>>, i: int, j: int, k: int) -> bool {
    &&& upper_entry(pa, k, j).product_defined(lower_entry(pa, i, k))
    &&& upper_sum(pa, i, j, k).sum_defined(upper_entry(pa, k, j).product(lower_entry(pa, i, k)))
}

/// Whether entry `[i][j]` of the upper factor can be computed from the
/// entries that it depends on.
pub open spec fn upper_entry_defined<T: Scalar>(pa: Seq<Seq<T>>, i: int, j: int) -> bool {
    &&& forall|k: int| 0 <= k < i ==> #[trigger] upper_step_defined(pa, i, j, k)
    &&& pa[i][j].difference_defined(upper_sum(pa, i, j, i))
}

/// Whether term `k` of the sum for entry `[i][j]` of the lower factor can be
/// computed and added.
pub open spec fn lower_step_defined<T: Scalar>(pa: Seq<Seq<T>>, i: int, j: int, k: int) -> bool {
    &&& lower_entry(pa, i, k).product_defined(upper_entry(pa, k, j))
    &&& lower_sum(pa, i, j, k).sum_defined(lower_entry(pa, i, k).product(upper_entry(pa, k, j)))
}

/// Whether entry `[i][j]` of the lower factor can be computed from the
/// entries that it depends on. This includes the division by the pivot.
pub open spec fn lower_entry_defined<T: Scalar>(pa: Seq<Seq<T>>, i: int, j: int) -> bool {
    &&& forall|k: int| 0 <= k < j ==> #[trigger] lower_step_defined(pa, i, j, k)
    &&& pa[i][j].difference_defined(lower_sum(pa, i, j, j))
    &&& pa[i][j].difference(lower_sum(pa, i, j, j)).quotient_defined(upper_entry(pa, j, j))
}

/// Whether both factors of the square matrix `pa` can be computed.
pub open spec fn factors_defined<T: Scalar>(pa: Seq<Seq<T>>) -> bool {
    &&& forall|i: int, j: int| 0 <= i <= j < pa.len() ==> #[trigger] upper_entry_defined(pa, i, j)
    &&& forall|i: int, j: int| 0 <= j <= i < pa.len() ==> #[trigger] lower_entry_defined(pa, i, j)
}

/// The matrix that is factored when `a` is decomposed: `a` with its rows in
/// pivot order, computed as the product of the pivot matrix and `a`.
pub open spec fn pivoted<T: Scalar>(a: Seq<Seq<T>>) -> Seq<Seq<T>> {
    matrix_product(pivot_matrix(a), a)
}

/// Whether the square matrix `a` can be decomposed: every operation on
/// scalars that the decomposition performs can be carried out.
pub open spec fn decomposition_defined<T: Scalar>(a: Seq<Seq<T>>) -> bool {
    &&& pivot_defined(a)
    &&& matrix_product_defined(pivot_matrix(a), a)
    &&& factors_defined(pivoted(a))
}

/// What decomposing a square matrix `A` gives: the permutation matrix `P`,
/// the lower-triangular `L` and the upper-triangular `U`, all of the shape of
/// `A`, with `P A = L U` where the arithmetic is exact.
#[derive(Debug)]
#[allow(non_snake_case)]
pub struct LUPDecomposed<T> {
    pub P: Matrix<T>,
    pub L: Matrix<T>,
    pub U: Matrix<T>,
}

/// The sign that row `i` contributes to the determinant: one where the
/// diagonal entry of the permutation matrix is zero, minus one where it is
/// not.
pub open spec fn sign_factor<T: Scalar>(p: Seq<Seq<T>>, i: int) -> T {
    if p[i][i].equals(T::zero_value()) {
        T::one_value()
    } else {
        T::one_value().negation()
    }
}

/// Minus one, multiplied in turn by the sign factors of the rows below `k`.
pub open spec fn sign_prefix<T: Scalar>(p: Seq<Seq<T>>, k: int) -> T
    decreases k,
{
    if k <= 0 {
        T::one_value().negation()
    } else {
        sign_prefix(p, k - 1).product(sign_factor(p, k - 1))
    }
}

/// One, multiplied in turn by the diagonal entries of `m` in the rows below
/// `k`.
pub open spec fn diagonal_prefix<T: Scalar>(m: Seq<Seq<T>>, k: int) -> T
    decreases k,
{
    if k <= 0 {
        T::one_value()
    } else {
        diagonal_prefix(m, k - 1).product(m[k - 1][k - 1])
    }
}

/// The determinant as computed from the three matrices of a decomposition:
/// the accumulated sign, times the product of the diagonal of `l`, times the
/// product of the diagonal of `u`.
pub open spec fn determinant_of<T: Scalar>(p: Seq<Seq<T>>, l: Seq<Seq<T>>, u: Seq<Seq<T>>) -> T {
    let n = p.len() as int;
    sign_prefix(p, n).product(diagonal_prefix(l, n)).product(diagonal_prefix(u, n))
}

/// Whether the three running products can take in row `k`.
pub open spec fn determinant_step_defined<T: Scalar>(
    p: Seq<Seq<T>>,
    l: Seq<Seq<T>>,
    u: Seq<Seq<T>>,
    k: int,
) -> bool {
    &&& sign_prefix(p, k).product_defined(sign_factor(p, k))
    &&& diagonal_prefix(l, k).product_defined(l[k][k])
    &&& diagonal_prefix(u, k).product_defined(u[k][k])
}

/// Whether the determinant can be computed from the three matrices.
pub open spec fn determinant_defined<T: Scalar>(
    p: Seq<Seq<T>>,
    l: Seq<Seq<T>>,
    u: Seq<Seq<T>>,
) -> bool {
    let n = p.len() as int;
    &&& T::one_value().negation_defined()
    &&& forall|k: int| 0 <= k < n ==> #[trigger] determinant_step_defined(p, l, u, k)
    &&& sign_prefix(p, n).product_defined(diagonal_prefix(l, n))
    &&& sign_prefix(p, n).product(diagonal_prefix(l, n)).product_defined(diagonal_prefix(u, n))
}

/// Whether `u` is square of the size of `pa`, holds the upper factor in the
/// columns before `j` and in column `j` above row `i`, and zero elsewhere.
spec fn upper_filled<T: Scalar>(u: Seq<Seq<T>>, pa: Seq<Seq<T>>, j: int, i: int) -> bool {
    &&& has_shape(u, pa.len(), pa.len())
    &&& forall|r: int, c: int|
        0 <= r < pa.len() && 0 <= c < pa.len() ==> #[trigger] u[r][c] == (if c < j || (c == j && r
            < i) {
            upper_entry(pa, r, c)
        } else {
            T::zero_value()
        })
}

/// Whether `l` is square of the size of `pa`, holds the lower factor in the
/// columns before `j` and in column `j` above row `i`, and the identity
/// elsewhere.
spec fn lower_filled<T: Scalar>(l: Seq<Seq<T>>, pa: Seq<Seq<T>>, j: int, i: int) -> bool {
    &&& has_shape(l, pa.len(), pa.len())
    &&& forall|r: int, c: int|
        0 <= r < pa.len() && 0 <= c < pa.len() ==> #[trigger] l[r][c] == (if c < j || (c == j && r
            < i) {
            lower_entry(pa, r, c)
        } else if r == c {
            T::one_value()
        } else {
            T::zero_value()
        })
}

/// With all columns complete, `l` and `u` are the two factors.
proof fn lemma_all_columns_complete<T: Scalar>(l: Seq<Seq<T>>, u: Seq<Seq<T>>, pa: Seq<Seq<T>>)
    requires
        lower_filled(l, pa, pa.len() as int, 0),
        upper_filled(u, pa, pa.len() as int, 0),
    ensures
        l == lower_factor(pa),
        u == upper_factor(pa),
{
    assert(forall|r: int| 0 <= r < pa.len() ==> #[trigger] l[r] =~= lower_factor(pa)[r]);
    assert(forall|r: int| 0 <= r < pa.len() ==> #[trigger] u[r] =~= upper_factor(pa)[r]);
}

/// Reads entry `[i][j]`.
fn entry<T: Copy>(m: &Vec<Vec<T>>, i: usize, j: usize) -> (x: T)
    requires
        i < grid(m@).len(),
        j < grid(m@)[i as int].len(),
    ensures
        x == grid(m@)[i as int][j as int],
{
    m[i][j]
}

/// Writes entry `[i][j]`.
fn set_entry<T: Copy>(m: &mut Vec<Vec<T>>, i: usize, j: usize, x: T)
    requires
        i < grid(old(m)@).len(),
        j < grid(old(m)@)[i as int].len(),
    ensures
        grid(final(m)@) == grid(old(m)@).update(
            i as int,
            grid(old(m)@)[i as int].update(j as int, x),
        ),
{
    m[i][j] = x;
    assert(grid(m@) =~= grid(old(m)@).update(
        i as int,
        grid(old(m)@)[i as int].update(j as int, x),
    ));
}

impl<T: Scalar> LUPDecomposed<T> {
    /// The invariant of a decomposition: three square matrices of one size.
    pub open spec fn wf(&self) -> bool {
        &&& self.P.wf()
        &&& self.L.wf()
        &&& self.U.wf()
        &&& self.P.shape.0 == self.P.shape.1
        &&& self.L.shape == self.P.shape
        &&& self.U.shape == self.P.shape
    }

    /// The determinant of the decomposed matrix: the accumulated sign, times
    /// the product of the diagonal of `L`, times the product of the diagonal
    /// of `U`. The sign starts as minus one and is multiplied, for each row,
    /// by one where the diagonal entry of `P` is zero and by minus one where
    /// it is not.
    ///
    /// The sign so accumulated depends on how many rows `P` leaves in place,
    /// which is not in general the parity of the permutation: with no row
    /// exchanged and an even number of rows it is minus one. Counting the
    /// exchanges that pivoting makes would give the parity.
    pub fn determinant(&self) -> (d: T)
        requires
            self.wf(),
            determinant_defined(self.P@, self.L@, self.U@),
        ensures
            d == determinant_of(self.P@, self.L@, self.U@),
    {
        let n = self.P.shape.0;
        let one = T::one();
        let minus_one = one.negate();
        let zero = T::zero();
        let mut flag = minus_one;
        let mut lsum = one;
        let mut usum = one;
        let mut i: usize = 0;
        while i < n
            invariant
                self.wf(),
                determinant_defined(self.P@, self.L@, self.U@),
                n == self.P.shape.0,
                one == T::one_value(),
                minus_one == T::one_value().negation(),
                zero == T::zero_value(),
                i <= n,
                flag == sign_prefix(self.P@, i as int),
                lsum == diagonal_prefix(self.L@, i as int),
                usum == diagonal_prefix(self.U@, i as int),
            decreases n - i,
        {
            assert(determinant_step_defined(self.P@, self.L@, self.U@, i as int));
            let factor = if self.P.v[i][i].is_equal(zero) {
                one
            } else {
                minus_one
            };
            flag = flag.times(factor);
            lsum = lsum.times(self.L.v[i][i]);
            usum = usum.times(self.U.v[i][i]);
            i += 1;
        }
        flag.times(lsum).times(usum)
    }
}

impl<T: Scalar> Matrix<T> {
    /// Decomposes a square matrix `A` into a permutation matrix `P`, a
    /// lower-triangular `L` and an upper-triangular `U`. `P` is the pivot
    /// matrix of `A`, and `L` and `U` are the factors of the product `P A`,
    /// filled column by column:
    /// `U[i][j] = PA[i][j] - sum over k < i of U[k][j] L[i][k]` for `i <= j`,
    /// `L[i][j] = (PA[i][j] - sum over k < j of L[i][k] U[k][j]) / U[j][j]`
    /// for `i >= j`.
    ///
    /// A pivot `U[j][j]` of zero is divided by like any other value. A scalar
    /// type that cannot divide by zero, as the machine integers, leaves such
    /// a matrix out by `decomposition_defined`; one that can, as floating
    /// point, hands on what its division gives.
    pub fn decompose(&self) -> (r: LUPDecomposed<T>)
        requires
            self.wf(),
            self.shape.0 == self.shape.1,
            decomposition_defined(self@),
        ensures
            r.wf(),
            r.P.shape == self.shape,
            r.P@ == pivot_matrix(self@),
            is_permutation(pivot_order(self@)),
            r.L@ == lower_factor(pivoted(self@)),
            r.U@ == upper_factor(pivoted(self@)),
    {
        let n = self.shape.0;
        let mut ones: Vec<T> = Vec::new();
        let mut t: usize = 0;
        while t < n
            invariant
                t <= n,
                ones.len() == t,
                forall|k: int| 0 <= k < t ==> #[trigger] ones[k] == T::one_value(),
            decreases n - t,
        {
            ones.push(T::one());
            t += 1;
        }
        let mut l = Self::diag(ones).v;
        let mut u = Self::zeroes(n, n).v;
        let p = self.pivot();
        let pa = p.product(self);
        let mut j: usize = 0;
        while j < n
            invariant
                pa.wf(),
                pa.shape == (n, n),
                factors_defined(pa@),
                j <= n,
                upper_filled(grid(u@), pa@, j as int, 0),
                lower_filled(grid(l@), pa@, j as int, 0),
            decreases n - j,
        {
            let mut i: usize = 0;
            while i <= j
                invariant
                    pa.wf(),
                    pa.shape == (n, n),
                    factors_defined(pa@),
                    j < n,
                    i <= j + 1,
                    upper_filled(grid(u@), pa@, j as int, i as int),
                    lower_filled(grid(l@), pa@, j as int, 0),
                decreases j + 1 - i,
            {
                let mut acc = T::zero();
                let mut k: usize = 0;
                while k < i
                    invariant
                        pa@.len() == n,
                        i <= j < n,
                        k <= i,
                        upper_entry_defined(pa@, i as int, j as int),
                        upper_filled(grid(u@), pa@, j as int, i as int),
                        lower_filled(grid(l@), pa@, j as int, 0),
                        acc == upper_sum(pa@, i as int, j as int, k as int),
                    decreases i - k,
                {
                    assert(upper_step_defined(pa@, i as int, j as int, k as int));
                    let term = entry(&u, k, j).times(entry(&l, i, k));
                    acc = acc.plus(term);
                    k += 1;
                }
                let x = pa.v[i][j].minus(acc);
                set_entry(&mut u, i, j, x);
                i += 1;
            }
            let mut i: usize = j;
            while i < n
                invariant
                    pa.wf(),
                    pa.shape == (n, n),
                    factors_defined(pa@),
                    j < n,
                    j <= i <= n,
                    upper_filled(grid(u@), pa@, j + 1, 0),
                    lower_filled(grid(l@), pa@, j as int, i as int),
                decreases n - i,
            {
                let mut acc = T::zero();
                let mut k: usize = 0;
                while k < j
                    invariant
                        pa@.len() == n,
                        j <= i < n,
                        k <= j,
                        lower_entry_defined(pa@, i as int, j as int),
                        upper_filled(grid(u@), pa@, j + 1, 0),
                        lower_filled(grid(l@), pa@, j as int, i as int),
                        acc == lower_sum(pa@, i as int, j as int, k as int),
                    decreases j - k,
                {
                    assert(lower_step_defined(pa@, i as int, j as int, k as int));
                    let term = entry(&l, i, k).times(entry(&u, k, j));
                    acc = acc.plus(term);
                    k += 1;
                }
                let x = pa.v[i][j].minus(acc).divide(entry(&u, j, j));
                set_entry(&mut l, i, j, x);
                i += 1;
            }
            j += 1;
        }
        proof {
            lemma_all_columns_complete(grid(l@), grid(u@), pa@);
        }
        LUPDecomposed { P: p, L: Self::from_rows(l), U: Self::from_rows(u) }
    }
}

} // verus!
