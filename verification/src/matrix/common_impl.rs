//! What every matrix handle offers, whatever backs it.

use crate::layouts::{lemma_layout_fits, row_major_layout, DefaultLayout};
use crate::matrix::{Matrix, MatrixD};
use crate::traits::layout::{in_bounds, Extent};
use crate::traits::random_access::{is_update, same_entries};
use crate::traits::{
    Dynamic, Fixed1, Layout, LayoutType, MatrixTrait, MatrixTraitAccessByRef, MatrixTraitMut,
    RandomAccessByRef, RandomAccessMut, SizeIdentifier, SizeType, UnsafeRandomAccessByRef,
    UnsafeRandomAccessByValue, UnsafeRandomAccessMut,
};
use crate::types::{IndexType, Scalar};
use vstd::prelude::*;

verus! {

impl<Item: Scalar, MatImpl: MatrixTrait<Item, RS, CS>, RS: SizeIdentifier, CS: SizeIdentifier> Layout for Matrix<
    Item,
    MatImpl,
    RS,
    CS,
> {
    type Impl = DefaultLayout;

    open spec fn spec_layout(&self) -> DefaultLayout {
        self.implementation().spec_layout()
    }

    fn layout(&self) -> (l: &DefaultLayout) {
        self.0.layout()
    }
}

impl<
    Item: Scalar,
    MatImpl: MatrixTrait<Item, RS, CS>,
    RS: SizeIdentifier,
    CS: SizeIdentifier,
> SizeType for Matrix<Item, MatImpl, RS, CS> {
    type R = RS;

    type C = CS;
}

impl<
    Item: Scalar,
    MatImpl: MatrixTrait<Item, RS, CS>,
    RS: SizeIdentifier,
    CS: SizeIdentifier,
> UnsafeRandomAccessByValue for Matrix<Item, MatImpl, RS, CS> {
    type Item = Item;

    open spec fn spec_value(&self, row: int, col: int) -> Item {
        self.implementation().spec_value(row, col)
    }

    fn get_value_unchecked(&self, row: IndexType, col: IndexType) -> (value: Item) {
        self.0.get_value_unchecked(row, col)
    }

    fn get1d_value_unchecked(&self, index: IndexType) -> (value: Item) {
        self.0.get1d_value_unchecked(index)
    }
}

impl<
    Item: Scalar,
    MatImpl: MatrixTraitMut<Item, RS, CS>,
    RS: SizeIdentifier,
    CS: SizeIdentifier,
> UnsafeRandomAccessMut for Matrix<Item, MatImpl, RS, CS> {
    fn get_unchecked_mut(&mut self, row: IndexType, col: IndexType) -> (entry: &mut Item) {
        self.0.get_unchecked_mut(row, col)
    }

    fn get1d_unchecked_mut(&mut self, index: IndexType) -> (entry: &mut Item) {
        self.0.get1d_unchecked_mut(index)
    }
}

impl<
    Item: Scalar,
    MatImpl: MatrixTraitAccessByRef<Item, RS, CS>,
    RS: SizeIdentifier,
    CS: SizeIdentifier,
> UnsafeRandomAccessByRef for Matrix<Item, MatImpl, RS, CS> {
    fn get_unchecked(&self, row: IndexType, col: IndexType) -> (entry: &Item) {
        self.0.get_unchecked(row, col)
    }

    fn get1d_unchecked(&self, index: IndexType) -> (entry: &Item) {
        self.0.get1d_unchecked(index)
    }
}

impl<Item: Scalar, MatImpl: MatrixTrait<Item, RS, CS>, RS: SizeIdentifier, CS: SizeIdentifier> Matrix<
    Item,
    MatImpl,
    RS,
    CS,
> {
    /// Returns the number of rows and the number of columns.
    pub fn dim(&self) -> (d: (IndexType, IndexType))
        ensures
            d.0 == self.spec_dim().0,
            d.1 == self.spec_dim().1,
    {
        self.layout().dim()
    }
}

impl<Item: Scalar, MatImpl: MatrixTrait<Item, RS, CS>, RS: SizeIdentifier, CS: SizeIdentifier> Matrix<
    Item,
    MatImpl,
    RS,
    CS,
> {
    /// Evaluates the handle into a new owned matrix of the same extent that
    /// holds, at every position, the entry of the handle at that position.
    pub fn eval(self) -> (result: MatrixD<Item>)
        ensures
            same_entries(&result, &self),
            result.spec_layout() == row_major_layout(self.spec_dim()),
    {
        let layout = self.layout();
        let dim = layout.dim();
        proof {
            use_type_invariant(layout);
            lemma_layout_fits(*layout);
        }
        let mut result = MatrixD::<Item>::zeros_from_dim(dim.0, dim.1);
        let mut row: IndexType = 0;
        while row < dim.0
            invariant
                row <= dim.0,
                dim.0 == self.spec_dim().0,
                dim.1 == self.spec_dim().1,
                result.spec_layout() == row_major_layout(self.spec_dim()),
                result.spec_dim() == self.spec_dim(),
                forall|i: int, j: int|
                    0 <= i < row && 0 <= j < dim.1 ==> #[trigger] result.spec_value(i, j)
                        == self.spec_value(i, j),
            decreases dim.0 - row,
        {
            let mut col: IndexType = 0;
            while col < dim.1
                invariant
                    row < dim.0,
                    col <= dim.1,
                    dim.0 == self.spec_dim().0,
                    dim.1 == self.spec_dim().1,
                    result.spec_layout() == row_major_layout(self.spec_dim()),
                    result.spec_dim() == self.spec_dim(),
                    forall|i: int, j: int|
                        0 <= i < row && 0 <= j < dim.1 ==> #[trigger] result.spec_value(i, j)
                            == self.spec_value(i, j),
                    forall|j: int|
                        0 <= j < col ==> #[trigger] result.spec_value(row as int, j)
                            == self.spec_value(row as int, j),
                decreases dim.1 - col,
            {
                *result.get_unchecked_mut(row, col) = self.get_value_unchecked(row, col);
                col = col + 1;
            }
            row = row + 1;
        }
        result
    }
}

impl<
    Item: Scalar,
    MatImpl: MatrixTraitAccessByRef<Item, RS, CS>,
    RS: SizeIdentifier,
    CS: SizeIdentifier,
> std::ops::Index<[IndexType; 2]> for Matrix<Item, MatImpl, RS, CS> {
    type Output = Item;

    /// Returns a reference to the entry at position (`index[0]`,
    /// `index[1]`), which has to be in range.
    fn index(&self, index: [IndexType; 2]) -> (entry: &Item)
        ensures
            *entry == self.spec_value(index[0] as int, index[1] as int),
    {
        self.get(index[0], index[1]).unwrap()
    }
}

impl<
    Item: Scalar,
    MatImpl: MatrixTraitAccessByRef<Item, RS, CS>,
    RS: SizeIdentifier,
    CS: SizeIdentifier,
> vstd::std_specs::core::IndexSpecImpl<[IndexType; 2]> for Matrix<Item, MatImpl, RS, CS> {
    open spec fn index_req(&self, index: &[IndexType; 2]) -> bool {
        in_bounds(index[0] as int, index[1] as int, self.spec_dim())
    }
}

impl<
    Item: Scalar,
    MatImpl: MatrixTraitMut<Item, RS, CS> + MatrixTraitAccessByRef<Item, RS, CS>,
    RS: SizeIdentifier,
    CS: SizeIdentifier,
> Matrix<Item, MatImpl, RS, CS> {
    /// Returns a mutable reference to the entry at position (`index[0]`,
    /// `index[1]`), which has to be in range. What is written through it
    /// becomes that entry; nothing else changes.
    pub fn index_mut(&mut self, index: [IndexType; 2]) -> (entry: &mut Item)
        requires
            in_bounds(index[0] as int, index[1] as int, old(self).spec_dim()),
        ensures
            *entry == old(self).spec_value(index[0] as int, index[1] as int),
            is_update(old(self), final(self), index[0] as int, index[1] as int, *final(entry)),
    {
        self.get_mut(index[0], index[1]).unwrap()
    }
}

impl<Item: Scalar, MatImpl: MatrixTrait<Item, Fixed1, Dynamic>> Matrix<
    Item,
    MatImpl,
    Fixed1,
    Dynamic,
> {
    /// Returns the length of a row vector: its number of columns.
    pub fn length(&self) -> (len: IndexType)
        ensures
            len == self.spec_dim().1,
    {
        self.layout().dim().1
    }
}

impl<Item: Scalar, MatImpl: MatrixTrait<Item, Dynamic, Fixed1>> Matrix<
    Item,
    MatImpl,
    Dynamic,
    Fixed1,
> {
    /// Returns the length of a column vector: its number of rows.
    pub fn length(&self) -> (len: IndexType)
        ensures
            len == self.spec_dim().0,
    {
        self.layout().dim().0
    }
}

} // verus!
