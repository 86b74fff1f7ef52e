//! Filling a matrix with given values.

use crate::matrix::Matrix;
use crate::traits::layout::{flat_index, in_bounds, Extent};
use crate::traits::layout::{lemma_coordinate_in_range, lemma_flat_index_in_range};
use crate::traits::random_access::FlatEntries;
use crate::traits::{
    Layout, LayoutType, MatrixTraitMut, SizeIdentifier, UnsafeRandomAccessByValue,
    UnsafeRandomAccessMut,
};
use crate::types::{IndexType, Scalar};
use vstd::prelude::*;

verus! {

impl<
    Item: Scalar,
    MatImpl: MatrixTraitMut<Item, RS, CS>,
    RS: SizeIdentifier,
    CS: SizeIdentifier,
> Matrix<Item, MatImpl, RS, CS> {
    /// Overwrites every entry: the entry with flat index `i` becomes
    /// `values[i]`. There has to be one value for each entry. The extent
    /// stays as it is.
    pub fn fill_from_values(&mut self, values: &[Item])
        requires
            values@.len() == old(self).spec_number_of_elements(),
        ensures
            final(self).spec_layout() == old(self).spec_layout(),
            forall|index: int|
                0 <= index < values@.len() ==> #[trigger] final(self).spec_value1d(index)
                    == values@[index],
            forall|row: int, col: int|
                in_bounds(row, col, old(self).spec_dim()) ==> #[trigger] final(self).spec_value(
                    row,
                    col,
                ) == values@[flat_index(row, col, old(self).spec_dim().1 as int)],
    {
        let nelems = self.layout().number_of_elements();
        let ghost dim = self.spec_dim();
        let mut index: IndexType = 0;
        while index < nelems
            invariant
                index <= nelems,
                nelems == values@.len(),
                nelems == dim.0 * dim.1,
                self.spec_layout() == old(self).spec_layout(),
                dim == old(self).spec_dim(),
                forall|row: int, col: int|
                    in_bounds(row, col, dim) && flat_index(row, col, dim.1 as int) < index
                        ==> #[trigger] self.spec_value(row, col) == values@[flat_index(
                        row,
                        col,
                        dim.1 as int,
                    )],
            decreases nelems - index,
        {
            let ghost before = *self;
            proof {
                lemma_coordinate_in_range(index as int, dim);
            }
            *self.get1d_unchecked_mut(index) = values[index];
            proof {
                assert forall|row: int, col: int|
                    in_bounds(row, col, dim) && flat_index(row, col, dim.1 as int) < index
                        + 1 implies #[trigger] self.spec_value(row, col) == values@[flat_index(
                    row,
                    col,
                    dim.1 as int,
                )] by {
                    lemma_flat_index_in_range(row, col, dim);
                    if flat_index(row, col, dim.1 as int) < index {
                        assert(before.spec_value(row, col) == values@[flat_index(
                            row,
                            col,
                            dim.1 as int,
                        )]);
                    }
                }
            }
            index = index + 1;
        }
        proof {
            assert forall|row: int, col: int| in_bounds(row, col, dim) implies #[trigger]
                self.spec_value(row, col) == values@[flat_index(row, col, dim.1 as int)] by {
                lemma_flat_index_in_range(row, col, dim);
            }
            assert forall|i: int| 0 <= i < values@.len() implies #[trigger] self.spec_value1d(i)
                == values@[i] by {
                lemma_coordinate_in_range(i, dim);
            }
        }
    }
}

} // verus!
