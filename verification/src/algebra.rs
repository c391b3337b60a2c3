//! The mathematics that the contracts of vectors and matrices are stated in:
//! sequences of scalars, and sequences of rows of equal length.
use vstd::prelude::*;
use crate::scalar::Scalar;

verus! {

/// The rows of a nested vector, each as a sequence.
pub open spec fn grid<T>(v: Seq<Vec<T>>) -> Seq<Seq<T>> {
    Seq::new(v.len(), |i: int| v[i]@)
}

/// Whether `m` has `rows` rows of `cols` entries each.
pub open spec fn has_shape<T>(m: Seq<Seq<T>>, rows: nat, cols: nat) -> bool {
    &&& m.len() == rows
    &&& forall|i: int| 0 <= i < m.len() ==> (#[trigger] m[i]).len() == cols
}

/// Whether `m` is a matrix: at least one row, at least one column, and all
/// rows of one length.
pub open spec fn is_matrix<T>(m: Seq<Seq<T>>) -> bool {
    &&& m.len() >= 1
    &&& m[0].len() >= 1
    &&& has_shape(m, m.len(), m[0].len())
}

/// Whether `m` is a matrix with as many rows as columns.
pub open spec fn is_square<T>(m: Seq<Seq<T>>) -> bool {
    is_matrix(m) && m[0].len() == m.len()
}

/// Column `j` of `m`, from the top down.
pub open spec fn column_of<T>(m: Seq<Seq<T>>, j: int) -> Seq<T> {
    Seq::new(m.len(), |i: int| m[i][j])
}

/// The sum of the products `x[t] * y[t]` for `t` below `k`, added up from the
/// left, starting with zero.
pub open spec fn inner_prefix<T: Scalar>(x: Seq<T>, y: Seq<T>, k: int) -> T
    decreases k,
{
    if k <= 0 {
        T::zero_value()
    } else {
        inner_prefix(x, y, k - 1).sum(x[k - 1].product(y[k - 1]))
    }
}

/// The inner product of `x` and `y`, which have one length.
pub open spec fn inner<T: Scalar>(x: Seq<T>, y: Seq<T>) -> T {
    inner_prefix(x, y, x.len() as int)
}

/// Whether the product `x[t] * y[t]` can be computed and added to the sum of
/// those before it.
pub open spec fn inner_step_defined<T: Scalar>(x: Seq<T>, y: Seq<T>, t: int) -> bool {
    &&& x[t].product_defined(y[t])
    &&& inner_prefix(x, y, t).sum_defined(x[t].product(y[t]))
}

/// Whether the inner product of `x` and `y` can be computed.
pub open spec fn inner_defined<T: Scalar>(x: Seq<T>, y: Seq<T>) -> bool {
    forall|t: int| 0 <= t < x.len() ==> #[trigger] inner_step_defined(x, y, t)
}

/// The entry-wise sum of two vectors of one dimension.
pub open spec fn vector_sum<T: Scalar>(a: Seq<T>, b: Seq<T>) -> Seq<T> {
    Seq::new(a.len(), |i: int| a[i].sum(b[i]))
}

/// Whether every entry of `a` can be added to the entry of `b` in its place.
pub open spec fn vector_sum_defined<T: Scalar>(a: Seq<T>, b: Seq<T>) -> bool {
    forall|i: int| 0 <= i < a.len() ==> (#[trigger] a[i]).sum_defined(b[i])
}

/// Every entry of `a` multiplied by `n`, the entry on the right.
pub open spec fn vector_scaled<T: Scalar>(a: Seq<T>, n: T) -> Seq<T> {
    Seq::new(a.len(), |i: int| n.product(a[i]))
}

/// Whether every entry of `a` can be multiplied by `n`.
pub open spec fn vector_scaled_defined<T: Scalar>(a: Seq<T>, n: T) -> bool {
    forall|i: int| 0 <= i < a.len() ==> n.product_defined(#[trigger] a[i])
}

/// `a[s] * b[t] - a[t] * b[s]`, the building block of a cross product.
pub open spec fn cross_term<T: Scalar>(a: Seq<T>, b: Seq<T>, s: int, t: int) -> T {
    a[s].product(b[t]).difference(a[t].product(b[s]))
}

/// Whether `cross_term(a, b, s, t)` can be computed.
pub open spec fn cross_term_defined<T: Scalar>(a: Seq<T>, b: Seq<T>, s: int, t: int) -> bool {
    &&& a[s].product_defined(b[t])
    &&& a[t].product_defined(b[s])
    &&& a[s].product(b[t]).difference_defined(a[t].product(b[s]))
}

/// The cross product of two vectors, both of dimension two or both of
/// dimension three. In dimension two it is the one number
/// `a[0] * b[1] - a[1] * b[0]`, as a vector of dimension one.
pub open spec fn cross_product<T: Scalar>(a: Seq<T>, b: Seq<T>) -> Seq<T> {
    if a.len() == 2 {
        seq![cross_term(a, b, 0, 1)]
    } else {
        seq![cross_term(a, b, 1, 2), cross_term(a, b, 2, 0), cross_term(a, b, 0, 1)]
    }
}

/// Whether the cross product of `a` and `b` can be computed.
pub open spec fn cross_product_defined<T: Scalar>(a: Seq<T>, b: Seq<T>) -> bool {
    if a.len() == 2 {
        cross_term_defined(a, b, 0, 1)
    } else {
        &&& cross_term_defined(a, b, 1, 2)
        &&& cross_term_defined(a, b, 2, 0)
        &&& cross_term_defined(a, b, 0, 1)
    }
}

/// Whether a cross product is offered for vectors of dimensions `n` and `m`.
pub open spec fn cross_dimensions(n: nat, m: nat) -> bool {
    n == m && (n == 2 || n == 3)
}

/// The all-zero matrix with `rows` rows and `cols` columns.
pub open spec fn zero_matrix<T: Scalar>(rows: nat, cols: nat) -> Seq<Seq<T>> {
    Seq::new(rows, |i: int| Seq::new(cols, |j: int| T::zero_value()))
}

/// The square matrix with `values` on its diagonal and zero elsewhere.
pub open spec fn diagonal_matrix<T: Scalar>(values: Seq<T>) -> Seq<Seq<T>> {
    Seq::new(
        values.len(),
        |i: int| Seq::new(values.len(), |j: int| if i == j { values[i] } else { T::zero_value() }),
    )
}

/// The identity matrix of size `n`.
pub open spec fn identity_matrix<T: Scalar>(n: nat) -> Seq<Seq<T>> {
    diagonal_matrix(Seq::new(n, |i: int| T::one_value()))
}

/// The entry-wise sum of two matrices of one shape.
pub open spec fn matrix_sum<T: Scalar>(a: Seq<Seq<T>>, b: Seq<Seq<T>>) -> Seq<Seq<T>> {
    Seq::new(a.len(), |i: int| Seq::new(a[i].len(), |j: int| a[i][j].sum(b[i][j])))
}

/// Whether every entry of `a` can be added to the entry of `b` in its place.
pub open spec fn matrix_sum_defined<T: Scalar>(a: Seq<Seq<T>>, b: Seq<Seq<T>>) -> bool {
    forall|i: int, j: int|
        0 <= i < a.len() && 0 <= j < a[i].len() ==> (#[trigger] a[i][j]).sum_defined(b[i][j])
}

/// The transpose: entry `[j][i]` of the result is entry `[i][j]` of `a`.
pub open spec fn transposed<T>(a: Seq<Seq<T>>) -> Seq<Seq<T>> {
    Seq::new(a[0].len(), |j: int| Seq::new(a.len(), |i: int| a[i][j]))
}

/// The matrix product: entry `[i][j]` is the inner product of row `i` of `a`
/// and column `j` of `b`.
pub open spec fn matrix_product<T: Scalar>(a: Seq<Seq<T>>, b: Seq<Seq<T>>) -> Seq<Seq<T>> {
    Seq::new(a.len(), |i: int| Seq::new(b[0].len(), |j: int| inner(a[i], column_of(b, j))))
}

/// Whether entry `[i][j]` of the product of `a` and `b` can be computed.
pub open spec fn product_entry_defined<T: Scalar>(
    a: Seq<Seq<T>>,
    b: Seq<Seq<T>>,
    i: int,
    j: int,
) -> bool {
    inner_defined(a[i], column_of(b, j))
}

/// Whether the product of `a` and `b` can be computed.
pub open spec fn matrix_product_defined<T: Scalar>(a: Seq<Seq<T>>, b: Seq<Seq<T>>) -> bool {
    forall|i: int, j: int|
        0 <= i < a.len() && 0 <= j < b[0].len() ==> #[trigger] product_entry_defined(a, b, i, j)
}

/// Every entry of `a` multiplied by `n`, the entry on the left.
pub open spec fn matrix_scaled<T: Scalar>(a: Seq<Seq<T>>, n: T) -> Seq<Seq<T>> {
    Seq::new(a.len(), |i: int| Seq::new(a[i].len(), |j: int| a[i][j].product(n)))
}

/// Whether every entry of `a` can be multiplied by `n`.
pub open spec fn matrix_scaled_defined<T: Scalar>(a: Seq<Seq<T>>, n: T) -> bool {
    forall|i: int, j: int|
        0 <= i < a.len() && 0 <= j < a[i].len() ==> (#[trigger] a[i][j]).product_defined(n)
}

} // verus!
