//! The algebraic laws of the matrix operations, for scalar types whose
//! arithmetic is exact. Each law is stated over the mathematical matrices
//! that the operations of `Matrix` are specified by.
use vstd::prelude::*;
use crate::algebra::{
    column_of, has_shape, identity_matrix, inner, inner_prefix, is_matrix, is_square,
    matrix_product, matrix_scaled, matrix_sum, transposed, zero_matrix,
};
use crate::decomposition::{
    lower_entry, lower_factor, lower_sum, pivoted, upper_entry, upper_factor, upper_sum,
};
use crate::pivoting::{
    is_permutation, lemma_order_after_columns_is_permutation, permutation_matrix, pivot_matrix,
    pivot_order,
};
use crate::scalar::{ExactScalar, Scalar};

verus! {

/// Matrix addition is associative: for matrices `a`, `b` and `c` of one
/// shape, `(a + b) + c` is `a + (b + c)`.
pub proof fn lemma_sum_associative<T: ExactScalar>(
    a: Seq<Seq<T>>,
    b: Seq<Seq<T>>,
    c: Seq<Seq<T>>,
)
    requires
        is_matrix(a),
        has_shape(b, a.len(), a[0].len()),
        has_shape(c, a.len(), a[0].len()),
    ensures
        matrix_sum(matrix_sum(a, b), c) == matrix_sum(a, matrix_sum(b, c)),
{
    let left = matrix_sum(matrix_sum(a, b), c);
    let right = matrix_sum(a, matrix_sum(b, c));
    assert forall|i: int| 0 <= i < a.len() implies #[trigger] left[i] =~= right[i] by {
        assert forall|j: int| 0 <= j < a[0].len() implies #[trigger] left[i][j] == right[i][j] by {
            T::sum_associative(a[i][j], b[i][j], c[i][j]);
        }
    }
}

/// Matrix addition is commutative: for matrices `a` and `b` of one shape,
/// `a + b` is `b + a`.
pub proof fn lemma_sum_commutative<T: ExactScalar>(a: Seq<Seq<T>>, b: Seq<Seq<T>>)
    requires
        is_matrix(a),
        has_shape(b, a.len(), a[0].len()),
    ensures
        matrix_sum(a, b) == matrix_sum(b, a),
{
    let left = matrix_sum(a, b);
    let right = matrix_sum(b, a);
    assert forall|i: int| 0 <= i < a.len() implies #[trigger] left[i] =~= right[i] by {
        assert forall|j: int| 0 <= j < a[0].len() implies #[trigger] left[i][j] == right[i][j] by {
            T::sum_commutative(a[i][j], b[i][j]);
        }
    }
}

/// Transposing twice gives the matrix back. This holds of entries of any
/// type.
pub proof fn lemma_transpose_involution<T>(a: Seq<Seq<T>>)
    requires
        is_matrix(a),
    ensures
        transposed(transposed(a)) == a,
{
    let back = transposed(transposed(a));
    assert(forall|i: int| 0 <= i < a.len() ==> #[trigger] back[i] =~= a[i]);
}

/// The inner product of `x` with a column of the identity, taken up to place
/// `k`: nothing before the column's one is reached, and from then on the
/// entry of `x` that meets it.
proof fn lemma_inner_with_unit_column<T: ExactScalar>(x: Seq<T>, j: int, k: int)
    requires
        0 <= j < x.len(),
        0 <= k <= x.len(),
    ensures
        inner_prefix(x, column_of(identity_matrix::<T>(x.len()), j), k) == (if k > j {
            x[j]
        } else {
            T::zero_value()
        }),
    decreases k,
{
    if k > 0 {
        lemma_inner_with_unit_column(x, j, k - 1);
        T::product_with_one(x[k - 1]);
        T::product_with_zero(x[k - 1]);
        T::sum_with_zero(x[j]);
        T::sum_with_zero(T::zero_value());
    }
}

/// The inner product of a row of the identity with `y`, taken up to place
/// `k`.
proof fn lemma_inner_with_unit_row<T: ExactScalar>(y: Seq<T>, i: int, k: int)
    requires
        0 <= i < y.len(),
        0 <= k <= y.len(),
    ensures
        inner_prefix(identity_matrix::<T>(y.len())[i], y, k) == (if k > i {
            y[i]
        } else {
            T::zero_value()
        }),
    decreases k,
{
    if k > 0 {
        lemma_inner_with_unit_row(y, i, k - 1);
        T::product_with_one(y[k - 1]);
        T::product_with_zero(y[k - 1]);
        T::sum_with_zero(y[i]);
        T::sum_with_zero(T::zero_value());
    }
}

/// Multiplying by the identity matrix on the right gives the matrix back.
pub proof fn lemma_product_with_identity_right<T: ExactScalar>(a: Seq<Seq<T>>)
    requires
        is_matrix(a),
    ensures
        matrix_product(a, identity_matrix::<T>(a[0].len())) == a,
{
    let id = identity_matrix::<T>(a[0].len());
    let prod = matrix_product(a, id);
    assert forall|i: int| 0 <= i < a.len() implies #[trigger] prod[i] =~= a[i] by {
        assert forall|j: int| 0 <= j < a[0].len() implies #[trigger] prod[i][j] == a[i][j] by {
            lemma_inner_with_unit_column(a[i], j, a[i].len() as int);
        }
    }
}

/// Multiplying by the identity matrix on the left gives the matrix back.
pub proof fn lemma_product_with_identity_left<T: ExactScalar>(a: Seq<Seq<T>>)
    requires
        is_matrix(a),
    ensures
        matrix_product(identity_matrix::<T>(a.len()), a) == a,
{
    let id = identity_matrix::<T>(a.len());
    let prod = matrix_product(id, a);
    assert forall|i: int| 0 <= i < a.len() implies #[trigger] prod[i] =~= a[i] by {
        assert forall|j: int| 0 <= j < a[0].len() implies #[trigger] prod[i][j] == a[i][j] by {
            let y = column_of(a, j);
            lemma_inner_with_unit_row(y, i, y.len() as int);
        }
    }
}

/// Multiplying every entry by one gives the matrix back.
pub proof fn lemma_scaled_by_one<T: ExactScalar>(a: Seq<Seq<T>>)
    requires
        is_matrix(a),
    ensures
        matrix_scaled(a, T::one_value()) == a,
{
    let scaled = matrix_scaled(a, T::one_value());
    assert forall|i: int| 0 <= i < a.len() implies #[trigger] scaled[i] =~= a[i] by {
        assert forall|j: int| 0 <= j < a[i].len() implies #[trigger] scaled[i][j] == a[i][j] by {
            T::product_with_one(a[i][j]);
        }
    }
}

/// Multiplying every entry by zero gives the all-zero matrix of the same
/// shape.
pub proof fn lemma_scaled_by_zero<T: ExactScalar>(a: Seq<Seq<T>>)
    requires
        is_matrix(a),
    ensures
        matrix_scaled(a, T::zero_value()) == zero_matrix::<T>(a.len(), a[0].len()),
{
    let scaled = matrix_scaled(a, T::zero_value());
    let zeroes = zero_matrix::<T>(a.len(), a[0].len());
    assert forall|i: int| 0 <= i < a.len() implies #[trigger] scaled[i] =~= zeroes[i] by {
        assert forall|j: int| 0 <= j < a[i].len() implies #[trigger] scaled[i][j]
            == zeroes[i][j] by {
            T::product_with_zero(a[i][j]);
        }
    }
}

/// Whether the square matrix `pa` is factored without loss: no pivot is zero,
/// and each division by a pivot is exact, so that the quotient times the
/// pivot is the dividend again.
pub open spec fn factors_exact<T: Scalar>(pa: Seq<Seq<T>>) -> bool {
    &&& forall|j: int| 0 <= j < pa.len() ==> #[trigger] upper_entry(pa, j, j) != T::zero_value()
    &&& forall|i: int, j: int|
        0 <= j <= i < pa.len() ==> (#[trigger] lower_entry(pa, i, j)).product(
            upper_entry(pa, j, j),
        ) == pa[i][j].difference(lower_sum(pa, i, j, j))
}

/// On the diagonal the two sums of the factorisation agree, the order of the
/// factors in a product being of no account.
proof fn lemma_diagonal_sums_agree<T: ExactScalar>(pa: Seq<Seq<T>>, i: int, m: int)
    requires
        0 <= m <= i,
    ensures
        lower_sum(pa, i, i, m) == upper_sum(pa, i, i, m),
    decreases m,
{
    if m > 0 {
        lemma_diagonal_sums_agree(pa, i, m - 1);
        T::product_commutative(lower_entry(pa, i, m - 1), upper_entry(pa, m - 1, i));
    }
}

/// The lower factor has ones on its diagonal.
proof fn lemma_lower_diagonal_is_one<T: ExactScalar>(pa: Seq<Seq<T>>, i: int)
    requires
        0 <= i < pa.len(),
        factors_exact(pa),
    ensures
        lower_entry(pa, i, i) == T::one_value(),
{
    lemma_diagonal_sums_agree(pa, i, i);
    T::quotient_by_self(upper_entry(pa, i, i));
}

/// The pivot matrix is a permutation matrix: the row order it is built from
/// holds each row number exactly once.
pub proof fn lemma_pivot_order_is_permutation<T: Scalar>(a: Seq<Seq<T>>)
    ensures
        is_permutation(pivot_order(a)),
        pivot_order(a).len() == a.len(),
{
    lemma_order_after_columns_is_permutation(a, a.len() as int);
}

/// Multiplying by the pivot matrix reorders the rows: row `r` of the product
/// of the pivot matrix and `a` is the row of `a` that the pivot order names
/// in place `r`.
pub proof fn lemma_pivoted_is_reordered<T: ExactScalar>(a: Seq<Seq<T>>)
    requires
        is_matrix(a),
    ensures
        pivoted(a).len() == a.len(),
        forall|r: int| 0 <= r < a.len() ==> #[trigger] pivoted(a)[r] == a[pivot_order(a)[r]],
{
    lemma_pivot_order_is_permutation(a);
    let order = pivot_order(a);
    let n = a.len();
    assert forall|r: int| 0 <= r < n implies #[trigger] pivoted(a)[r] == a[order[r]] by {
        let from = order[r];
        assert(0 <= from < n);
        assert(a[from].len() == a[0].len());
        assert(permutation_matrix::<T>(order)[r] =~= identity_matrix::<T>(n)[from]);
        assert forall|c: int| 0 <= c < a[0].len() implies #[trigger] pivoted(a)[r][c]
            == a[from][c] by {
            let y = column_of(a, c);
            lemma_inner_with_unit_row(y, from, y.len() as int);
        }
        assert(pivoted(a)[r] =~= a[from]);
    }
}

/// The upper factor is upper-triangular: zero below the diagonal.
pub proof fn lemma_upper_factor_is_triangular<T: Scalar>(pa: Seq<Seq<T>>)
    ensures
        forall|i: int, j: int|
            0 <= j < i < pa.len() ==> #[trigger] upper_factor(pa)[i][j] == T::zero_value(),
{
}

/// The lower factor is lower-triangular: zero above the diagonal.
pub proof fn lemma_lower_factor_is_triangular<T: Scalar>(pa: Seq<Seq<T>>)
    ensures
        forall|i: int, j: int|
            0 <= i < j < pa.len() ==> #[trigger] lower_factor(pa)[i][j] == T::zero_value(),
{
}

/// The lower factor of a matrix that is factored without loss has ones on
/// its diagonal.
pub proof fn lemma_lower_factor_has_unit_diagonal<T: ExactScalar>(pa: Seq<Seq<T>>)
    requires
        factors_exact(pa),
    ensures
        forall|i: int| 0 <= i < pa.len() ==> #[trigger] lower_factor(pa)[i][i] == T::one_value(),
{
    assert forall|i: int| 0 <= i < pa.len() implies #[trigger] lower_factor(pa)[i][i]
        == T::one_value() by {
        lemma_lower_diagonal_is_one(pa, i);
    }
}

/// Row `i` of the lower factor.
spec fn lower_row<T: Scalar>(pa: Seq<Seq<T>>, i: int) -> Seq<T> {
    lower_factor(pa)[i]
}

/// Column `j` of the upper factor.
spec fn upper_column<T: Scalar>(pa: Seq<Seq<T>>, j: int) -> Seq<T> {
    column_of(upper_factor(pa), j)
}

/// Above the diagonal, the inner product of a row of the lower factor and a
/// column of the upper factor starts as the sum that the entry of the upper
/// factor was computed with.
proof fn lemma_inner_is_upper_sum<T: ExactScalar>(pa: Seq<Seq<T>>, i: int, j: int, m: int)
    requires
        0 <= m <= i <= j < pa.len(),
    ensures
        inner_prefix(lower_row(pa, i), upper_column(pa, j), m) == upper_sum(pa, i, j, m),
    decreases m,
{
    if m > 0 {
        lemma_inner_is_upper_sum(pa, i, j, m - 1);
        T::product_commutative(lower_entry(pa, i, m - 1), upper_entry(pa, m - 1, j));
    }
}

/// Below the diagonal, the inner product of a row of the lower factor and a
/// column of the upper factor starts as the sum that the entry of the lower
/// factor was computed with.
proof fn lemma_inner_is_lower_sum<T: ExactScalar>(pa: Seq<Seq<T>>, i: int, j: int, m: int)
    requires
        0 <= m <= j <= i < pa.len(),
    ensures
        inner_prefix(lower_row(pa, i), upper_column(pa, j), m) == lower_sum(pa, i, j, m),
    decreases m,
{
    if m > 0 {
        lemma_inner_is_lower_sum(pa, i, j, m - 1);
    }
}

/// Once the inner product of a row of the lower factor and a column of the
/// upper factor has passed the diagonal of either, it is the entry of `pa`:
/// what follows are products with zero.
proof fn lemma_inner_is_entry<T: ExactScalar>(pa: Seq<Seq<T>>, i: int, j: int, m: int)
    requires
        is_square(pa),
        factors_exact(pa),
        0 <= i < pa.len(),
        0 <= j < pa.len(),
        i < m <= pa.len() || j < m <= pa.len(),
        m <= pa.len(),
    ensures
        inner_prefix(lower_row(pa, i), upper_column(pa, j), m) == pa[i][j],
    decreases m,
{
    let x = lower_row(pa, i);
    let y = upper_column(pa, j);
    let least = if i <= j { i } else { j };
    if m == least + 1 {
        if i <= j {
            lemma_inner_is_upper_sum(pa, i, j, i);
            lemma_lower_diagonal_is_one(pa, i);
            T::product_with_one(upper_entry(pa, i, j));
            T::difference_restored(pa[i][j], upper_sum(pa, i, j, i));
        } else {
            lemma_inner_is_lower_sum(pa, i, j, j);
            T::difference_restored(pa[i][j], lower_sum(pa, i, j, j));
        }
    } else {
        lemma_inner_is_entry(pa, i, j, m - 1);
        T::product_with_zero(x[m - 1]);
        T::product_with_zero(y[m - 1]);
        T::sum_with_zero(pa[i][j]);
    }
}

/// The factors multiply back to the matrix they were computed from: for a
/// square matrix `pa` that is factored without loss, the product of its lower
/// and its upper factor is `pa`.
pub proof fn lemma_factors_multiply_back<T: ExactScalar>(pa: Seq<Seq<T>>)
    requires
        is_square(pa),
        factors_exact(pa),
    ensures
        matrix_product(lower_factor(pa), upper_factor(pa)) == pa,
{
    let prod = matrix_product(lower_factor(pa), upper_factor(pa));
    assert forall|i: int| 0 <= i < pa.len() implies #[trigger] prod[i] =~= pa[i] by {
        assert forall|j: int| 0 <= j < pa.len() implies #[trigger] prod[i][j] == pa[i][j] by {
            lemma_inner_is_entry(pa, i, j, pa.len() as int);
        }
    }
}

/// A decomposition reproduces the matrix: for a square matrix `a` whose rows,
/// taken in pivot order, are factored without loss, the pivot matrix times
/// `a` is the lower factor times the upper factor.
pub proof fn lemma_decomposition_reproduces<T: ExactScalar>(a: Seq<Seq<T>>)
    requires
        is_square(a),
        factors_exact(pivoted(a)),
    ensures
        matrix_product(pivot_matrix(a), a) == matrix_product(
            lower_factor(pivoted(a)),
            upper_factor(pivoted(a)),
        ),
{
    let pa = pivoted(a);
    lemma_pivot_order_is_permutation(a);
    lemma_factors_multiply_back(pa);
}

} // verus!
