//! A backing implementation that borrows another handle.

use crate::layouts::DefaultLayout;
use crate::matrix::Matrix;
use crate::traits::{
    Layout, MatrixTrait, MatrixTraitAccessByRef, SizeIdentifier, SizeType,
    UnsafeRandomAccessByRef, UnsafeRandomAccessByValue,
};
use crate::types::{IndexType, Scalar};
use std::marker::PhantomData;
use vstd::prelude::*;

verus! {

/// A view of a borrowed handle. It copies nothing: its layout and its
/// entries are those of the handle it borrows.
#[verifier::reject_recursive_types(Item)]
#[verifier::reject_recursive_types(RS)]
#[verifier::reject_recursive_types(CS)]
pub struct MatrixRef<'a, Item, MatImpl, RS, CS>(
    pub &'a Matrix<Item, MatImpl, RS, CS>,
    pub PhantomData<Item>,
    pub PhantomData<RS>,
    pub PhantomData<CS>,
) where
    Item: Scalar,
    RS: SizeIdentifier,
    CS: SizeIdentifier,
    MatImpl: MatrixTrait<Item, RS, CS>,
;

impl<
    'a,
    Item: Scalar,
    MatImpl: MatrixTrait<Item, RS, CS>,
    RS: SizeIdentifier,
    CS: SizeIdentifier,
> MatrixRef<'a, Item, MatImpl, RS, CS> {
    /// The handle that is borrowed.
    pub open spec fn referent(&self) -> Matrix<Item, MatImpl, RS, CS> {
        *self.0
    }

    /// The view of `mat`.
    pub open spec fn spec_new(mat: &'a Matrix<Item, MatImpl, RS, CS>) -> Self {
        MatrixRef(mat, PhantomData, PhantomData, PhantomData)
    }

    /// Creates a view of `mat`.
    pub fn new(mat: &'a Matrix<Item, MatImpl, RS, CS>) -> (view: Self)
        ensures
            view == Self::spec_new(mat),
            view.referent() == *mat,
    {
        MatrixRef(mat, PhantomData, PhantomData, PhantomData)
    }
}

impl<
    'a,
    Item: Scalar,
    MatImpl: MatrixTrait<Item, RS, CS>,
    RS: SizeIdentifier,
    CS: SizeIdentifier,
> Layout for MatrixRef<'a, Item, MatImpl, RS, CS> {
    type Impl = DefaultLayout;

    open spec fn spec_layout(&self) -> DefaultLayout {
        self.referent().spec_layout()
    }

    fn layout(&self) -> (l: &DefaultLayout) {
        self.0.layout()
    }
}

impl<
    'a,
    Item: Scalar,
    MatImpl: MatrixTrait<Item, RS, CS>,
    RS: SizeIdentifier,
    CS: SizeIdentifier,
> SizeType for MatrixRef<'a, Item, MatImpl, RS, CS> {
    type R = RS;

    type C = CS;
}

impl<
    'a,
    Item: Scalar,
    MatImpl: MatrixTrait<Item, RS, CS>,
    RS: SizeIdentifier,
    CS: SizeIdentifier,
> UnsafeRandomAccessByValue for MatrixRef<'a, Item, MatImpl, RS, CS> {
    type Item = Item;

    open spec fn spec_value(&self, row: int, col: int) -> Item {
        self.referent().spec_value(row, col)
    }

    fn get_value_unchecked(&self, row: IndexType, col: IndexType) -> (value: Item) {
        self.0.get_value_unchecked(row, col)
    }

    fn get1d_value_unchecked(&self, index: IndexType) -> (value: Item) {
        self.0.get1d_value_unchecked(index)
    }
}

impl<
    'a,
    Item: Scalar,
    MatImpl: MatrixTraitAccessByRef<Item, RS, CS>,
    RS: SizeIdentifier,
    CS: SizeIdentifier,
> UnsafeRandomAccessByRef for MatrixRef<'a, Item, MatImpl, RS, CS> {
    fn get_unchecked(&self, row: IndexType, col: IndexType) -> (entry: &Item) {
        self.0.get_unchecked(row, col)
    }

    fn get1d_unchecked(&self, index: IndexType) -> (entry: &Item) {
        self.0.get1d_unchecked(index)
    }
}

} // verus!
