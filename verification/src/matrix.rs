//! The matrix handle: one type for owned storage, borrowed views and lazy
//! expressions alike.

pub mod common_impl;
pub mod constructors;
pub mod fill;

use crate::base_matrix::BaseMatrix;
use crate::matrix_ref::MatrixRef;
use crate::traits::{Dynamic, Fixed1, MatrixTrait, SizeIdentifier};
use crate::types::Scalar;
use std::marker::PhantomData;
use vstd::prelude::*;

verus! {

/// A handle over the backing implementation `MatImpl`. It has no state of
/// its own: its layout and its entries are those of the implementation.
#[verifier::reject_recursive_types(Item)]
#[verifier::reject_recursive_types(RS)]
#[verifier::reject_recursive_types(CS)]
pub struct Matrix<Item, MatImpl, RS, CS>(
    pub MatImpl,
    pub PhantomData<Item>,
    pub PhantomData<RS>,
    pub PhantomData<CS>,
) where
    Item: Scalar,
    RS: SizeIdentifier,
    CS: SizeIdentifier,
    MatImpl: MatrixTrait<Item, RS, CS>,
;

/// A handle over owned storage.
pub type GenericBaseMatrixMut<Item, RS, CS> = Matrix<Item, BaseMatrix<Item, RS, CS>, RS, CS>;

/// A handle over a borrowed handle.
pub type RefMat<'a, Item, MatImpl, RS, CS> = Matrix<
    Item,
    MatrixRef<'a, Item, MatImpl, RS, CS>,
    RS,
    CS,
>;

/// An owned matrix whose extent is chosen at run time.
pub type MatrixD<Item> = GenericBaseMatrixMut<Item, Dynamic, Dynamic>;

/// An owned column vector whose length is chosen at run time.
pub type ColumnVectorD<Item> = GenericBaseMatrixMut<Item, Dynamic, Fixed1>;

/// An owned row vector whose length is chosen at run time.
pub type RowVectorD<Item> = GenericBaseMatrixMut<Item, Fixed1, Dynamic>;

impl<Item: Scalar, MatImpl: MatrixTrait<Item, RS, CS>, RS: SizeIdentifier, CS: SizeIdentifier> Matrix<
    Item,
    MatImpl,
    RS,
    CS,
> {
    /// The backing implementation.
    pub open spec fn implementation(&self) -> MatImpl {
        self.0
    }

    /// The handle over `mat`.
    pub open spec fn spec_new(mat: MatImpl) -> Self {
        Matrix(mat, PhantomData, PhantomData, PhantomData)
    }

    /// Wraps a backing implementation into a handle.
    pub fn new(mat: MatImpl) -> (handle: Self)
        ensures
            handle == Self::spec_new(mat),
            handle.implementation() == mat,
    {
        Matrix(mat, PhantomData, PhantomData, PhantomData)
    }

    /// The handle that borrows `mat`.
    pub open spec fn spec_from_ref<'a>(mat: &'a Matrix<Item, MatImpl, RS, CS>) -> RefMat<
        'a,
        Item,
        MatImpl,
        RS,
        CS,
    > {
        Matrix::spec_new(MatrixRef::spec_new(mat))
    }

    /// Creates a handle that borrows `mat` and has the same layout and the
    /// same entries.
    pub fn from_ref<'a>(mat: &'a Matrix<Item, MatImpl, RS, CS>) -> (handle: RefMat<
        'a,
        Item,
        MatImpl,
        RS,
        CS,
    >)
        ensures
            handle == Self::spec_from_ref(mat),
            handle.implementation().referent() == *mat,
    {
        Matrix::new(MatrixRef::new(mat))
    }
}

} // verus!
