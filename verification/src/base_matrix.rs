//! Owned dense storage: the entries of a matrix in one buffer, row by row.

use crate::layouts::{lemma_row_major_fits, row_major_layout, row_major_stride, DefaultLayout};
use crate::traits::layout::{
    col_of, flat_index, in_bounds, lemma_coordinate_in_range, lemma_flat_index_in_range, row_of,
    Extent,
};
use crate::traits::{
    Layout, LayoutType, SizeIdentifier, SizeType, UnsafeRandomAccessByRef,
    UnsafeRandomAccessByValue, UnsafeRandomAccessMut,
};
use crate::types::{IndexType, Scalar};
use std::marker::PhantomData;
use vstd::prelude::*;

verus! {

/// A matrix that owns its entries.
#[verifier::reject_recursive_types(RS)]
#[verifier::reject_recursive_types(CS)]
pub struct BaseMatrix<Item: Scalar, RS: SizeIdentifier, CS: SizeIdentifier> {
    data: Vec<Item>,
    layout: DefaultLayout,
    phantom_r: PhantomData<RS>,
    phantom_c: PhantomData<CS>,
}

impl<Item: Scalar, RS: SizeIdentifier, CS: SizeIdentifier> BaseMatrix<Item, RS, CS> {
    /// The buffer holds one entry for each coordinate, row by row without
    /// gaps.
    #[verifier::type_invariant]
    pub closed spec fn wf(&self) -> bool {
        &&& self.layout.wf()
        &&& self.layout.spec_stride() == row_major_stride(self.layout.spec_dim())
        &&& self.data@.len() == self.layout.spec_dim().0 * self.layout.spec_dim().1
    }

    /// Creates a matrix with `rows` rows and `cols` columns in which every
    /// entry is zero.
    pub(crate) fn zeros(rows: IndexType, cols: IndexType) -> (mat: Self)
        requires
            rows * cols <= IndexType::MAX,
        ensures
            mat.wf(),
            mat.spec_layout() == row_major_layout((rows as nat, cols as nat)),
            mat.spec_dim() == (rows as nat, cols as nat),
            forall|row: int, col: int|
                in_bounds(row, col, mat.spec_dim()) ==> #[trigger] mat.spec_value(row, col)
                    == Item::spec_zero(),
    {
        proof {
            lemma_row_major_fits((rows as nat, cols as nat));
        }
        let layout = DefaultLayout::from_dimension((rows, cols), (cols, 1));
        let nelems = rows * cols;
        let mut data: Vec<Item> = Vec::new();
        let mut count: IndexType = 0;
        while count < nelems
            invariant
                count <= nelems,
                data@.len() == count,
                forall|i: int| 0 <= i < count ==> #[trigger] data@[i] == Item::spec_zero(),
            decreases nelems - count,
        {
            data.push(Item::zero());
            count = count + 1;
        }
        let mat = BaseMatrix { data, layout, phantom_r: PhantomData, phantom_c: PhantomData };
        proof {
            assert forall|row: int, col: int| in_bounds(row, col, mat.spec_dim()) implies #[trigger]
                mat.spec_value(row, col) == Item::spec_zero() by {
                lemma_flat_index_in_range(row, col, mat.spec_dim());
            }
        }
        mat
    }
}

impl<Item: Scalar, RS: SizeIdentifier, CS: SizeIdentifier> Layout for BaseMatrix<Item, RS, CS> {
    type Impl = DefaultLayout;

    closed spec fn spec_layout(&self) -> DefaultLayout {
        self.layout
    }

    fn layout(&self) -> (l: &DefaultLayout) {
        &self.layout
    }
}

impl<Item: Scalar, RS: SizeIdentifier, CS: SizeIdentifier> SizeType for BaseMatrix<Item, RS, CS> {
    type R = RS;

    type C = CS;
}

impl<Item: Scalar, RS: SizeIdentifier, CS: SizeIdentifier> UnsafeRandomAccessByValue for BaseMatrix<
    Item,
    RS,
    CS,
> {
    type Item = Item;

    closed spec fn spec_value(&self, row: int, col: int) -> Item {
        self.data@[flat_index(row, col, self.layout.spec_dim().1 as int)]
    }

    fn get_value_unchecked(&self, row: IndexType, col: IndexType) -> (value: Item) {
        proof {
            use_type_invariant(self);
        }
        let index = self.layout.convert_2d_1d(row, col);
        self.data[index]
    }

    fn get1d_value_unchecked(&self, index: IndexType) -> (value: Item) {
        proof {
            use_type_invariant(self);
            lemma_coordinate_in_range(index as int, self.spec_dim());
        }
        self.data[index]
    }
}

impl<Item: Scalar, RS: SizeIdentifier, CS: SizeIdentifier> UnsafeRandomAccessByRef for BaseMatrix<
    Item,
    RS,
    CS,
> {
    fn get_unchecked(&self, row: IndexType, col: IndexType) -> (entry: &Item) {
        proof {
            use_type_invariant(self);
        }
        let index = self.layout.convert_2d_1d(row, col);
        &self.data[index]
    }

    fn get1d_unchecked(&self, index: IndexType) -> (entry: &Item) {
        proof {
            use_type_invariant(self);
            lemma_coordinate_in_range(index as int, self.spec_dim());
        }
        &self.data[index]
    }
}

impl<Item: Scalar, RS: SizeIdentifier, CS: SizeIdentifier> UnsafeRandomAccessMut for BaseMatrix<
    Item,
    RS,
    CS,
> {
    fn get_unchecked_mut(&mut self, row: IndexType, col: IndexType) -> (entry: &mut Item) {
        proof {
            use_type_invariant(&*self);
        }
        let index = self.layout.convert_2d_1d(row, col);
        proof {
            let dim = self.spec_dim();
            assert forall|i: int, j: int| in_bounds(i, j, dim) && (i != row || j != col) implies
                flat_index(i, j, dim.1 as int) != index && 0 <= #[trigger] flat_index(i, j, dim.1 as int)
                    < dim.0 * dim.1 by {
                lemma_flat_index_in_range(i, j, dim);
                lemma_flat_index_in_range(row as int, col as int, dim);
            }
        }
        &mut self.data[index]
    }

    fn get1d_unchecked_mut(&mut self, index: IndexType) -> (entry: &mut Item) {
        proof {
            use_type_invariant(&*self);
            let dim = self.spec_dim();
            lemma_coordinate_in_range(index as int, dim);
            assert forall|i: int, j: int|
                in_bounds(i, j, dim) && (i != row_of(index as int, dim.1 as int) || j != col_of(
                    index as int,
                    dim.1 as int,
                )) implies flat_index(i, j, dim.1 as int) != index && 0 <= #[trigger] flat_index(
                i,
                j,
                dim.1 as int,
            ) < dim.0 * dim.1 by {
                lemma_flat_index_in_range(i, j, dim);
            }
        }
        &mut self.data[index]
    }
}

} // verus!
