//! Vectors of a fixed dimension and their arithmetic.
use vstd::prelude::*;
use crate::algebra::{
    cross_dimensions, cross_product, cross_product_defined, cross_term, cross_term_defined,
    inner, inner_defined, inner_prefix, inner_step_defined, vector_scaled, vector_scaled_defined,
    vector_sum, vector_sum_defined,
};
use crate::error::LinalgError;
use crate::scalar::Scalar;

verus! {

/// A vector: its entries in order, and their number.
pub struct Vector<T> {
    pub v: Vec<T>,
    pub dim: usize,
}

impl<T> View for Vector<T> {
    type V = Seq<T>;

    /// The entries of the vector.
    open spec fn view(&self) -> Seq<T> {
        self.v@
    }
}

impl<T: Scalar> Vector<T> {
    /// The invariant of a vector: the recorded dimension is the number of
    /// entries.
    pub open spec fn wf(&self) -> bool {
        self.dim == self.v@.len()
    }

    /// The vector with the given entries.
    pub fn new(v: Vec<T>) -> (r: Self)
        ensures
            r.wf(),
            r.v == v,
    {
        let dim = v.len();
        Self { v, dim }
    }

    /// The entry-wise sum, refused unless the two vectors have one dimension.
    pub fn add(&self, vec: &Self) -> (r: Result<Self, LinalgError>)
        requires
            self.wf(),
            vec.wf(),
            self.dim == vec.dim ==> vector_sum_defined(self@, vec@),
        ensures
            self.dim == vec.dim <==> r is Ok,
            r matches Ok(w) ==> w.wf() && w@ == vector_sum(self@, vec@),
            r matches Err(e) ==> e == LinalgError::DimensionMismatch,
    {
        if self.dim != vec.dim {
            return Err(LinalgError::DimensionMismatch);
        }
        let n = self.dim;
        let mut entries: Vec<T> = Vec::new();
        let mut i: usize = 0;
        while i < n
            invariant
                self.wf(),
                vec.wf(),
                n == self.dim,
                n == vec.dim,
                vector_sum_defined(self@, vec@),
                i <= n,
                entries.len() == i,
                forall|k: int| 0 <= k < i ==> #[trigger] entries[k] == vector_sum(self@, vec@)[k],
            decreases n - i,
        {
            entries.push(self.v[i].plus(vec.v[i]));
            i += 1;
        }
        Ok(Vector::new(entries))
    }

    /// The vector with every entry negated: the vector multiplied by minus
    /// one.
    pub fn inverse(&self) -> (r: Self)
        requires
            self.wf(),
            T::one_value().negation_defined(),
            vector_scaled_defined(self@, T::one_value().negation()),
        ensures
            r.wf(),
            r@ == vector_scaled(self@, T::one_value().negation()),
    {
        let minus = T::one().negate();
        self.scalar(minus)
    }

    /// The inner product: the products of the entries in the same place,
    /// added up from the first to the last, starting with zero. It is refused
    /// unless the two vectors have one dimension.
    pub fn dot(&self, vec: &Self) -> (r: Result<T, LinalgError>)
        requires
            self.wf(),
            vec.wf(),
            self.dim == vec.dim ==> inner_defined(self@, vec@),
        ensures
            self.dim == vec.dim <==> r is Ok,
            r matches Ok(x) ==> x == inner(self@, vec@),
            r matches Err(e) ==> e == LinalgError::DimensionMismatch,
    {
        if self.dim != vec.dim {
            return Err(LinalgError::DimensionMismatch);
        }
        let n = self.dim;
        let mut acc = T::zero();
        let mut i: usize = 0;
        while i < n
            invariant
                self.wf(),
                vec.wf(),
                n == self.dim,
                n == vec.dim,
                inner_defined(self@, vec@),
                i <= n,
                acc == inner_prefix(self@, vec@, i as int),
            decreases n - i,
        {
            assert(inner_step_defined(self@, vec@, i as int));
            let term = self.v[i].times(vec.v[i]);
            acc = acc.plus(term);
            i += 1;
        }
        Ok(acc)
    }

    /// `self[s] * vec[t] - self[t] * vec[s]`.
    fn cross_entry(&self, vec: &Self, s: usize, t: usize) -> (x: T)
        requires
            s < self@.len(),
            t < self@.len(),
            s < vec@.len(),
            t < vec@.len(),
            cross_term_defined(self@, vec@, s as int, t as int),
        ensures
            x == cross_term(self@, vec@, s as int, t as int),
    {
        let left = self.v[s].times(vec.v[t]);
        let right = self.v[t].times(vec.v[s]);
        left.minus(right)
    }

    /// The cross product, refused unless both vectors are of dimension two or
    /// both of dimension three. In dimension two the result has the one entry
    /// `self[0] * vec[1] - self[1] * vec[0]`.
    pub fn cross(&self, vec: &Self) -> (r: Result<Self, LinalgError>)
        requires
            self.wf(),
            vec.wf(),
            cross_dimensions(self@.len(), vec@.len()) ==> cross_product_defined(self@, vec@),
        ensures
            cross_dimensions(self@.len(), vec@.len()) <==> r is Ok,
            r matches Ok(w) ==> w.wf() && w@ == cross_product(self@, vec@),
            r matches Err(e) ==> e == LinalgError::InvalidDimension,
    {
        let len1 = self.dim;
        let len2 = vec.dim;
        if len1 != len2 || len1 < 2 || len1 > 3 {
            return Err(LinalgError::InvalidDimension);
        }
        let mut entries: Vec<T> = Vec::new();
        if len1 == 2 {
            entries.push(self.cross_entry(vec, 0, 1));
        } else {
            entries.push(self.cross_entry(vec, 1, 2));
            entries.push(self.cross_entry(vec, 2, 0));
            entries.push(self.cross_entry(vec, 0, 1));
        }
        Ok(Vector::new(entries))
    }

    /// Every entry multiplied by `n`.
    pub fn scalar(&self, n: T) -> (r: Self)
        requires
            self.wf(),
            vector_scaled_defined(self@, n),
        ensures
            r.wf(),
            r@ == vector_scaled(self@, n),
    {
        let count = self.dim;
        let mut entries: Vec<T> = Vec::new();
        let mut i: usize = 0;
        while i < count
            invariant
                self.wf(),
                count == self.dim,
                vector_scaled_defined(self@, n),
                i <= count,
                entries.len() == i,
                forall|k: int| 0 <= k < i ==> #[trigger] entries[k] == vector_scaled(self@, n)[k],
            decreases count - i,
        {
            entries.push(n.times(self.v[i]));
            i += 1;
        }
        Vector::new(entries)
    }
}

} // verus!
