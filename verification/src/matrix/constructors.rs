//! Creation of owned matrices and vectors.

use crate::base_matrix::BaseMatrix;
use crate::layouts::row_major_layout;
use crate::matrix::{ColumnVectorD, Matrix, MatrixD, RowVectorD};
use crate::traits::layout::{in_bounds, Extent};
use crate::traits::{Layout, UnsafeRandomAccessByValue};
use crate::types::{IndexType, Scalar};
use vstd::prelude::*;

verus! {

impl<Item: Scalar> MatrixD<Item> {
    /// Creates a matrix with `rows` rows and `cols` columns in which every
    /// entry is zero. The number of entries has to fit into [`IndexType`].
    pub fn zeros_from_dim(rows: IndexType, cols: IndexType) -> (mat: Self)
        requires
            rows * cols <= IndexType::MAX,
        ensures
            mat.spec_layout() == row_major_layout((rows as nat, cols as nat)),
            mat.spec_dim() == (rows as nat, cols as nat),
            forall|row: int, col: int|
                in_bounds(row, col, mat.spec_dim()) ==> #[trigger] mat.spec_value(row, col)
                    == Item::spec_zero(),
    {
        Matrix::new(BaseMatrix::zeros(rows, cols))
    }
}

impl<Item: Scalar> ColumnVectorD<Item> {
    /// Creates a column vector with `length` entries, all of them zero.
    pub fn zeros_from_length(length: IndexType) -> (vec: Self)
        ensures
            vec.spec_layout() == row_major_layout((length as nat, 1nat)),
            vec.spec_dim() == (length as nat, 1nat),
            forall|row: int, col: int|
                in_bounds(row, col, vec.spec_dim()) ==> #[trigger] vec.spec_value(row, col)
                    == Item::spec_zero(),
    {
        Matrix::new(BaseMatrix::zeros(length, 1))
    }
}

impl<Item: Scalar> RowVectorD<Item> {
    /// Creates a row vector with `length` entries, all of them zero.
    pub fn zeros_from_length(length: IndexType) -> (vec: Self)
        ensures
            vec.spec_layout() == row_major_layout((1nat, length as nat)),
            vec.spec_dim() == (1nat, length as nat),
            forall|row: int, col: int|
                in_bounds(row, col, vec.spec_dim()) ==> #[trigger] vec.spec_value(row, col)
                    == Item::spec_zero(),
    {
        Matrix::new(BaseMatrix::zeros(1, length))
    }
}

} // verus!
