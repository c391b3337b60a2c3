//! Partial pivoting: the order in which the rows of a matrix are taken, and
//! the permutation matrix that brings them into that order.
use vstd::prelude::*;
use crate::matrix::Matrix;
use crate::scalar::Scalar;

verus! {

/// The row order `order` with the rows in places `i` and `j` exchanged.
pub open spec fn exchanged(order: Seq<int>, i: int, j: int) -> Seq<int> {
    order.update(i, order[j]).update(j, order[i])
}

/// Whether, in column `j`, the entry of row `i` is larger in magnitude than
/// the entry on the diagonal.
pub open spec fn outweighs<T: Scalar>(a: Seq<Seq<T>>, i: int, j: int) -> bool {
    a[i][j].magnitude().exceeds(a[j][j].magnitude())
}

/// The row order that results from `order` when column `j` is scanned from the
/// diagonal down to row `i`, that row left out: each row whose entry outweighs
/// the diagonal entry is exchanged with row `j`. The entries compared are
/// those of `a` itself, whatever has been exchanged before.
pub open spec fn order_after_rows<T: Scalar>(
    a: Seq<Seq<T>>,
    order: Seq<int>,
    j: int,
    i: int,
) -> Seq<int>
    decreases i - j,
{
    if i <= j {
        order
    } else {
        let before = order_after_rows(a, order, j, i - 1);
        if outweighs(a, i - 1, j) {
            exchanged(before, i - 1, j)
        } else {
            before
        }
    }
}

/// The row order after the columns before `j` have been scanned in full,
/// starting from the rows in their own order.
pub open spec fn order_after_columns<T: Scalar>(a: Seq<Seq<T>>, j: int) -> Seq<int>
    decreases j,
{
    if j <= 0 {
        Seq::new(a.len(), |r: int| r)
    } else {
        order_after_rows(a, order_after_columns(a, j - 1), j - 1, a.len() as int)
    }
}

/// The row order that partial pivoting gives for `a`.
pub open spec fn pivot_order<T: Scalar>(a: Seq<Seq<T>>) -> Seq<int> {
    order_after_columns(a, a.len() as int)
}

/// The matrix whose row `r` has a one in column `order[r]` and zero elsewhere.
pub open spec fn permutation_matrix<T: Scalar>(order: Seq<int>) -> Seq<Seq<T>> {
    Seq::new(
        order.len(),
        |r: int|
            Seq::new(
                order.len(),
                |c: int| if c == order[r] { T::one_value() } else { T::zero_value() },
            ),
    )
}

/// The permutation matrix of partial pivoting for `a`.
pub open spec fn pivot_matrix<T: Scalar>(a: Seq<Seq<T>>) -> Seq<Seq<T>> {
    permutation_matrix(pivot_order(a))
}

/// Whether the magnitudes that pivoting compares can be computed: those of the
/// entries on and below the diagonal.
pub open spec fn pivot_defined<T: Scalar>(a: Seq<Seq<T>>) -> bool {
    forall|i: int, j: int| 0 <= j <= i < a.len() ==> (#[trigger] a[i][j]).magnitude_defined()
}

/// Whether `order` holds each of the numbers below its length exactly once.
pub open spec fn is_permutation(order: Seq<int>) -> bool {
    &&& forall|r: int| 0 <= r < order.len() ==> 0 <= #[trigger] order[r] < order.len()
    &&& forall|r: int, s: int|
        0 <= r < order.len() && 0 <= s < order.len() && r != s ==> order[r] != order[s]
}

/// Scanning part of a column keeps a row order a row order.
pub proof fn lemma_order_after_rows_is_permutation<T: Scalar>(
    a: Seq<Seq<T>>,
    order: Seq<int>,
    j: int,
    i: int,
)
    requires
        is_permutation(order),
        0 <= j,
        i <= order.len(),
    ensures
        is_permutation(order_after_rows(a, order, j, i)),
        order_after_rows(a, order, j, i).len() == order.len(),
    decreases i - j,
{
    if i > j {
        lemma_order_after_rows_is_permutation(a, order, j, i - 1);
    }
}

/// Scanning whole columns keeps a row order a row order.
pub proof fn lemma_order_after_columns_is_permutation<T: Scalar>(a: Seq<Seq<T>>, j: int)
    requires
        j <= a.len(),
    ensures
        is_permutation(order_after_columns(a, j)),
        order_after_columns(a, j).len() == a.len(),
    decreases j,
{
    if j > 0 {
        lemma_order_after_columns_is_permutation(a, j - 1);
        lemma_order_after_rows_is_permutation(
            a,
            order_after_columns(a, j - 1),
            j - 1,
            a.len() as int,
        );
    }
}

/// The numbers held by `perm`, as mathematical integers.
pub open spec fn as_order(perm: Seq<usize>) -> Seq<int> {
    Seq::new(perm.len(), |r: int| perm[r] as int)
}

impl<T: Scalar> Matrix<T> {
    /// The permutation matrix of partial pivoting. Starting from the identity,
    /// for each column `j` and each row `i` from the diagonal down, rows `i`
    /// and `j` of the permutation matrix are exchanged whenever the entry
    /// `[i][j]` of `self` is larger in magnitude than the entry `[j][j]`.
    /// `self` has at least as many columns as rows.
    pub fn pivot(&self) -> (r: Self)
        requires
            self.wf(),
            self.shape.0 <= self.shape.1,
            pivot_defined(self@),
        ensures
            r.wf(),
            r.shape == (self.shape.0, self.shape.0),
            r@ == pivot_matrix(self@),
            is_permutation(pivot_order(self@)),
    {
        let n = self.shape.0;
        let mut perm: Vec<usize> = Vec::new();
        let mut r: usize = 0;
        while r < n
            invariant
                r <= n,
                perm.len() == r,
                forall|k: int| 0 <= k < r ==> #[trigger] perm[k] == k,
            decreases n - r,
        {
            perm.push(r);
            r += 1;
        }
        let mut j: usize = 0;
        while j < n
            invariant
                self.wf(),
                n == self.shape.0,
                n <= self.shape.1,
                pivot_defined(self@),
                j <= n,
                perm.len() == n,
                as_order(perm@) == order_after_columns(self@, j as int),
            decreases n - j,
        {
            let ghost start = as_order(perm@);
            let mut i: usize = j;
            while i < n
                invariant
                    self.wf(),
                    n == self.shape.0,
                    n <= self.shape.1,
                    pivot_defined(self@),
                    j < n,
                    j <= i <= n,
                    perm.len() == n,
                    as_order(perm@) == order_after_rows(self@, start, j as int, i as int),
                decreases n - i,
            {
                assert(self@[i as int][j as int].magnitude_defined());
                let below = self.v[i][j].absolute();
                let diagonal = self.v[j][j].absolute();
                if below.is_greater(diagonal) {
                    let pi = perm[i];
                    let pj = perm[j];
                    perm.set(i, pj);
                    perm.set(j, pi);
                }
                i += 1;
            }
            j += 1;
        }
        proof {
            lemma_order_after_columns_is_permutation(self@, n as int);
        }
        let mut rows: Vec<Vec<T>> = Vec::new();
        let mut r: usize = 0;
        while r < n
            invariant
                n >= 1,
                r <= n,
                perm.len() == n,
                rows.len() == r,
                forall|k: int|
                    0 <= k < r ==> (#[trigger] rows[k])@ == permutation_matrix::<T>(
                        as_order(perm@),
                    )[k],
            decreases n - r,
        {
            let mut row: Vec<T> = Vec::new();
            let mut c: usize = 0;
            while c < n
                invariant
                    r < n,
                    c <= n,
                    perm.len() == n,
                    row.len() == c,
                    forall|k: int|
                        0 <= k < c ==> #[trigger] row[k] == permutation_matrix::<T>(
                            as_order(perm@),
                        )[r as int][k],
                decreases n - c,
            {
                if c == perm[r] {
                    row.push(T::one());
                } else {
                    row.push(T::zero());
                }
                c += 1;
            }
            rows.push(row);
            r += 1;
        }
        Self::from_rows(rows)
    }
}

} // verus!
