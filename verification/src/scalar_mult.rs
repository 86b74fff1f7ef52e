//! The product of a scalar and a matrix as an expression.
//!
//! A [`ScalarMult`] owns its operand and computes each of its entries when
//! that entry is read.
//!
//! The operator `*` is defined for a matrix and a scalar in either order,
//! and for owned and borrowed matrices. With a borrowed matrix, verified
//! callers write `Mul::mul(a, b)` to have the contract at hand.

use crate::layouts::DefaultLayout;
use crate::matrix::Matrix;
use crate::matrix_ref::MatrixRef;
use crate::traits::layout::Extent;
use crate::traits::{
    Layout, LayoutType, MatrixTrait, SizeIdentifier, SizeType, UnsafeRandomAccessByValue,
};
use crate::types::{IndexType, Scalar};
use std::marker::PhantomData;
use vstd::prelude::*;

verus! {

/// A handle over the product of a scalar and a matrix.
pub type ScalarProdMat<Item, MatImpl, RS, CS> = Matrix<
    Item,
    ScalarMult<Item, MatImpl, RS, CS>,
    RS,
    CS,
>;

/// The product of a scalar and a matrix.
#[verifier::reject_recursive_types(Item)]
#[verifier::reject_recursive_types(RS)]
#[verifier::reject_recursive_types(CS)]
pub struct ScalarMult<Item, MatImpl, RS, CS>(
    pub Matrix<Item, MatImpl, RS, CS>,
    pub Item,
    pub PhantomData<RS>,
    pub PhantomData<CS>,
) where
    Item: Scalar,
    RS: SizeIdentifier,
    CS: SizeIdentifier,
    MatImpl: MatrixTrait<Item, RS, CS>,
;

impl<
    Item: Scalar,
    MatImpl: MatrixTrait<Item, RS, CS>,
    RS: SizeIdentifier,
    CS: SizeIdentifier,
> ScalarMult<Item, MatImpl, RS, CS> {
    /// The matrix that is scaled.
    pub open spec fn operand(&self) -> Matrix<Item, MatImpl, RS, CS> {
        self.0
    }

    /// The factor by which every entry is multiplied.
    pub open spec fn scalar(&self) -> Item {
        self.1
    }

    /// The product of `scalar` and `mat`.
    pub open spec fn spec_new(mat: Matrix<Item, MatImpl, RS, CS>, scalar: Item) -> Self {
        ScalarMult(mat, scalar, PhantomData, PhantomData)
    }

    /// Creates the product of `scalar` and `mat`.
    pub fn new(mat: Matrix<Item, MatImpl, RS, CS>, scalar: Item) -> (product: Self)
        ensures
            product == Self::spec_new(mat, scalar),
            product.operand() == mat,
            product.scalar() == scalar,
    {
        ScalarMult(mat, scalar, PhantomData, PhantomData)
    }
}

impl<
    Item: Scalar,
    MatImpl: MatrixTrait<Item, RS, CS>,
    RS: SizeIdentifier,
    CS: SizeIdentifier,
> Layout for ScalarMult<Item, MatImpl, RS, CS> {
    type Impl = DefaultLayout;

    open spec fn spec_layout(&self) -> DefaultLayout {
        self.operand().spec_layout()
    }

    fn layout(&self) -> (l: &DefaultLayout) {
        self.0.layout()
    }
}

impl<
    Item: Scalar,
    MatImpl: MatrixTrait<Item, RS, CS>,
    RS: SizeIdentifier,
    CS: SizeIdentifier,
> SizeType for ScalarMult<Item, MatImpl, RS, CS> {
    type C = CS;

    type R = RS;
}

impl<
    Item: Scalar,
    MatImpl: MatrixTrait<Item, RS, CS>,
    RS: SizeIdentifier,
    CS: SizeIdentifier,
> UnsafeRandomAccessByValue for ScalarMult<Item, MatImpl, RS, CS> {
    type Item = Item;

    open spec fn spec_value(&self, row: int, col: int) -> Item {
        self.scalar().spec_times(self.operand().spec_value(row, col))
    }

    fn get_value_unchecked(&self, row: IndexType, col: IndexType) -> (value: Item) {
        self.1.times(self.0.get_value_unchecked(row, col))
    }

    fn get1d_value_unchecked(&self, index: IndexType) -> (value: Item) {
        self.1.times(self.0.get1d_value_unchecked(index))
    }
}

impl<
    Item: Scalar,
    MatImpl: MatrixTrait<Item, RS, CS>,
    RS: SizeIdentifier,
    CS: SizeIdentifier,
> std::ops::Mul<Item> for Matrix<Item, MatImpl, RS, CS> {
    type Output = ScalarProdMat<Item, MatImpl, RS, CS>;

    /// The product of an owned handle and a scalar.
    fn mul(self, rhs: Item) -> (product: Self::Output)
        ensures
            product.implementation().operand() == self,
            product.implementation().scalar() == rhs,
            product.spec_dim() == self.spec_dim(),
    {
        Matrix::new(ScalarMult::new(self, rhs))
    }
}

impl<
    Item: Scalar,
    MatImpl: MatrixTrait<Item, RS, CS>,
    RS: SizeIdentifier,
    CS: SizeIdentifier,
> vstd::std_specs::ops::MulSpecImpl<Item> for Matrix<Item, MatImpl, RS, CS> {
    open spec fn obeys_mul_spec() -> bool {
        true
    }

    open spec fn mul_req(self, rhs: Item) -> bool {
        true
    }

    open spec fn mul_spec(self, rhs: Item) -> Self::Output {
        Matrix::spec_new(ScalarMult::spec_new(self, rhs))
    }
}

impl<
    'a,
    Item: Scalar,
    MatImpl: MatrixTrait<Item, RS, CS>,
    RS: SizeIdentifier,
    CS: SizeIdentifier,
> std::ops::Mul<Item> for &'a Matrix<Item, MatImpl, RS, CS> {
    type Output = ScalarProdMat<Item, MatrixRef<'a, Item, MatImpl, RS, CS>, RS, CS>;

    /// The product of a borrowed handle and a scalar.
    fn mul(self, rhs: Item) -> (product: Self::Output)
        ensures
            product.implementation().operand() == Matrix::spec_from_ref(self),
            product.implementation().operand().implementation().referent() == *self,
            product.implementation().scalar() == rhs,
            product.spec_dim() == self.spec_dim(),
    {
        Matrix::new(ScalarMult::new(Matrix::from_ref(self), rhs))
    }
}

impl<
    'a,
    Item: Scalar,
    MatImpl: MatrixTrait<Item, RS, CS>,
    RS: SizeIdentifier,
    CS: SizeIdentifier,
> vstd::std_specs::ops::MulSpecImpl<Item> for &'a Matrix<Item, MatImpl, RS, CS> {
    open spec fn obeys_mul_spec() -> bool {
        true
    }

    open spec fn mul_req(self, rhs: Item) -> bool {
        true
    }

    open spec fn mul_spec(self, rhs: Item) -> Self::Output {
        Matrix::spec_new(ScalarMult::spec_new(Matrix::spec_from_ref(self), rhs))
    }
}

impl<
    MatImpl: MatrixTrait<i32, RS, CS>,
    RS: SizeIdentifier,
    CS: SizeIdentifier,
> std::ops::Mul<Matrix<i32, MatImpl, RS, CS>> for i32 {
    type Output = ScalarProdMat<i32, MatImpl, RS, CS>;

    /// The product of a scalar and an owned handle.
    fn mul(self, rhs: Matrix<i32, MatImpl, RS, CS>) -> (product: Self::Output)
        ensures
            product.implementation().operand() == rhs,
            product.implementation().scalar() == self,
            product.spec_dim() == rhs.spec_dim(),
    {
        Matrix::new(ScalarMult::new(rhs, self))
    }
}

impl<
    MatImpl: MatrixTrait<i32, RS, CS>,
    RS: SizeIdentifier,
    CS: SizeIdentifier,
> vstd::std_specs::ops::MulSpecImpl<Matrix<i32, MatImpl, RS, CS>> for i32 {
    open spec fn obeys_mul_spec() -> bool {
        true
    }

    open spec fn mul_req(self, rhs: Matrix<i32, MatImpl, RS, CS>) -> bool {
        true
    }

    open spec fn mul_spec(self, rhs: Matrix<i32, MatImpl, RS, CS>) -> Self::Output {
        Matrix::spec_new(ScalarMult::spec_new(rhs, self))
    }
}

impl<
    'a,
    MatImpl: MatrixTrait<i32, RS, CS>,
    RS: SizeIdentifier,
    CS: SizeIdentifier,
> std::ops::Mul<&'a Matrix<i32, MatImpl, RS, CS>> for i32 {
    type Output = ScalarProdMat<i32, MatrixRef<'a, i32, MatImpl, RS, CS>, RS, CS>;

    /// The product of a scalar and a borrowed handle.
    fn mul(self, rhs: &'a Matrix<i32, MatImpl, RS, CS>) -> (product: Self::Output)
        ensures
            product.implementation().operand() == Matrix::spec_from_ref(rhs),
            product.implementation().operand().implementation().referent() == *rhs,
            product.implementation().scalar() == self,
            product.spec_dim() == rhs.spec_dim(),
    {
        Matrix::new(ScalarMult::new(Matrix::from_ref(rhs), self))
    }
}

impl<
    'a,
    MatImpl: MatrixTrait<i32, RS, CS>,
    RS: SizeIdentifier,
    CS: SizeIdentifier,
> vstd::std_specs::ops::MulSpecImpl<&'a Matrix<i32, MatImpl, RS, CS>> for i32 {
    open spec fn obeys_mul_spec() -> bool {
        true
    }

    open spec fn mul_req(self, rhs: &'a Matrix<i32, MatImpl, RS, CS>) -> bool {
        true
    }

    open spec fn mul_spec(self, rhs: &'a Matrix<i32, MatImpl, RS, CS>) -> Self::Output {
        Matrix::spec_new(ScalarMult::spec_new(Matrix::spec_from_ref(rhs), self))
    }
}

impl<
    MatImpl: MatrixTrait<i64, RS, CS>,
    RS: SizeIdentifier,
    CS: SizeIdentifier,
> std::ops::Mul<Matrix<i64, MatImpl, RS, CS>> for i64 {
    type Output = ScalarProdMat<i64, MatImpl, RS, CS>;

    /// The product of a scalar and an owned handle.
    fn mul(self, rhs: Matrix<i64, MatImpl, RS, CS>) -> (product: Self::Output)
        ensures
            product.implementation().operand() == rhs,
            product.implementation().scalar() == self,
            product.spec_dim() == rhs.spec_dim(),
    {
        Matrix::new(ScalarMult::new(rhs, self))
    }
}

impl<
    MatImpl: MatrixTrait<i64, RS, CS>,
    RS: SizeIdentifier,
    CS: SizeIdentifier,
> vstd::std_specs::ops::MulSpecImpl<Matrix<i64, MatImpl, RS, CS>> for i64 {
    open spec fn obeys_mul_spec() -> bool {
        true
    }

    open spec fn mul_req(self, rhs: Matrix<i64, MatImpl, RS, CS>) -> bool {
        true
    }

    open spec fn mul_spec(self, rhs: Matrix<i64, MatImpl, RS, CS>) -> Self::Output {
        Matrix::spec_new(ScalarMult::spec_new(rhs, self))
    }
}

impl<
    'a,
    MatImpl: MatrixTrait<i64, RS, CS>,
    RS: SizeIdentifier,
    CS: SizeIdentifier,
> std::ops::Mul<&'a Matrix<i64, MatImpl, RS, CS>> for i64 {
    type Output = ScalarProdMat<i64, MatrixRef<'a, i64, MatImpl, RS, CS>, RS, CS>;

    /// The product of a scalar and a borrowed handle.
    fn mul(self, rhs: &'a Matrix<i64, MatImpl, RS, CS>) -> (product: Self::Output)
        ensures
            product.implementation().operand() == Matrix::spec_from_ref(rhs),
            product.implementation().operand().implementation().referent() == *rhs,
            product.implementation().scalar() == self,
            product.spec_dim() == rhs.spec_dim(),
    {
        Matrix::new(ScalarMult::new(Matrix::from_ref(rhs), self))
    }
}

impl<
    'a,
    MatImpl: MatrixTrait<i64, RS, CS>,
    RS: SizeIdentifier,
    CS: SizeIdentifier,
> vstd::std_specs::ops::MulSpecImpl<&'a Matrix<i64, MatImpl, RS, CS>> for i64 {
    open spec fn obeys_mul_spec() -> bool {
        true
    }

    open spec fn mul_req(self, rhs: &'a Matrix<i64, MatImpl, RS, CS>) -> bool {
        true
    }

    open spec fn mul_spec(self, rhs: &'a Matrix<i64, MatImpl, RS, CS>) -> Self::Output {
        Matrix::spec_new(ScalarMult::spec_new(Matrix::spec_from_ref(rhs), self))
    }
}

} // verus!
