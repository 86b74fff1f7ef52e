//! The default layout descriptor.

use crate::traits::layout::{in_bounds, raw_index};
use crate::traits::layout::{lemma_coordinate_in_range, lemma_flat_index_in_range};
use crate::traits::LayoutType;
use crate::types::IndexType;
use vstd::prelude::*;

verus! {

/// `true` exactly when every index computation for a matrix of extent `dim`
/// with strides `stride` stays within the range of [`IndexType`]: the
/// number of entries does, and so does the offset of the last entry.
pub open spec fn layout_fits(dim: (nat, nat), stride: (nat, nat)) -> bool {
    &&& dim.0 * dim.1 <= IndexType::MAX
    &&& dim.0 > 0 && dim.1 > 0 ==> raw_index(dim.0 - 1, dim.1 - 1, stride) <= IndexType::MAX
}

/// The strides of a matrix of extent `dim` whose entries lie in memory row
/// by row without gaps.
pub open spec fn row_major_stride(dim: (nat, nat)) -> (nat, nat) {
    (dim.1, 1)
}

/// The extent of a matrix together with its strides. Entries are numbered
/// row by row.
pub struct DefaultLayout {
    dim: (IndexType, IndexType),
    stride: (IndexType, IndexType),
}

impl DefaultLayout {
    /// Every index computation stays within the range of [`IndexType`].
    #[verifier::type_invariant]
    pub open spec fn wf(&self) -> bool {
        layout_fits(self.spec_dim(), self.spec_stride())
    }

    /// The layout of extent `dim` with strides `stride`.
    pub closed spec fn spec_from_dimension(
        dim: (IndexType, IndexType),
        stride: (IndexType, IndexType),
    ) -> Self {
        DefaultLayout { dim, stride }
    }

    /// Creates the layout of extent `dim` with strides `stride`.
    pub fn from_dimension(dim: (IndexType, IndexType), stride: (IndexType, IndexType)) -> (layout:
        Self)
        requires
            layout_fits((dim.0 as nat, dim.1 as nat), (stride.0 as nat, stride.1 as nat)),
        ensures
            layout == Self::spec_from_dimension(dim, stride),
            layout.wf(),
            layout.spec_dim() == (dim.0 as nat, dim.1 as nat),
            layout.spec_stride() == (stride.0 as nat, stride.1 as nat),
    {
        DefaultLayout { dim, stride }
    }
}

/// The extent and the strides of a layout are within the range of
/// [`IndexType`], and they determine the layout.
pub proof fn lemma_layout_fits(layout: DefaultLayout)
    ensures
        layout.spec_dim().0 <= IndexType::MAX,
        layout.spec_dim().1 <= IndexType::MAX,
        layout.spec_stride().0 <= IndexType::MAX,
        layout.spec_stride().1 <= IndexType::MAX,
        layout == DefaultLayout::spec_from_dimension(
            (layout.spec_dim().0 as IndexType, layout.spec_dim().1 as IndexType),
            (layout.spec_stride().0 as IndexType, layout.spec_stride().1 as IndexType),
        ),
{
}

/// A layout is determined by its extent and its strides.
pub proof fn lemma_layout_from_dimension(dim: (IndexType, IndexType), stride: (IndexType, IndexType))
    ensures
        DefaultLayout::spec_from_dimension(dim, stride).spec_dim() == (dim.0 as nat, dim.1 as nat),
        DefaultLayout::spec_from_dimension(dim, stride).spec_stride() == (
            stride.0 as nat,
            stride.1 as nat,
        ),
        DefaultLayout::spec_from_dimension(dim, stride).wf() == layout_fits(
            (dim.0 as nat, dim.1 as nat),
            (stride.0 as nat, stride.1 as nat),
        ),
{
}

/// The row-major layout of extent `dim`.
pub open spec fn row_major_layout(dim: (nat, nat)) -> DefaultLayout {
    DefaultLayout::spec_from_dimension(
        (dim.0 as IndexType, dim.1 as IndexType),
        (dim.1 as IndexType, 1),
    )
}

/// The offset of every in-range entry is at most the offset of the last one.
pub proof fn lemma_raw_index_bounded(row: int, col: int, dim: (nat, nat), stride: (nat, nat))
    requires
        in_bounds(row, col, dim),
    ensures
        0 <= stride.0 * row <= raw_index(row, col, stride) <= raw_index(
            dim.0 - 1,
            dim.1 - 1,
            stride,
        ),
{
    let (s0, s1) = (stride.0 as int, stride.1 as int);
    let (rows, cols) = (dim.0 as int, dim.1 as int);
    assert(0 <= s0 * row <= s0 * (rows - 1)) by (nonlinear_arith)
        requires
            0 <= row < rows,
            0 <= s0,
    ;
    assert(0 <= s1 * col <= s1 * (cols - 1)) by (nonlinear_arith)
        requires
            0 <= col < cols,
            0 <= s1,
    ;
}

/// Row-major strides fit whenever the number of entries does.
pub proof fn lemma_row_major_fits(dim: (nat, nat))
    requires
        dim.0 * dim.1 <= IndexType::MAX,
    ensures
        layout_fits(dim, row_major_stride(dim)),
{
    if dim.0 > 0 && dim.1 > 0 {
        lemma_flat_index_in_range(dim.0 - 1, dim.1 - 1, dim);
        assert(dim.1 * (dim.0 - 1) == (dim.0 - 1) * dim.1) by (nonlinear_arith);
    }
}

impl LayoutType for DefaultLayout {
    closed spec fn spec_dim(&self) -> (nat, nat) {
        (self.dim.0 as nat, self.dim.1 as nat)
    }

    closed spec fn spec_stride(&self) -> (nat, nat) {
        (self.stride.0 as nat, self.stride.1 as nat)
    }

    fn dim(&self) -> (d: (IndexType, IndexType)) {
        self.dim
    }

    fn stride(&self) -> (s: (IndexType, IndexType)) {
        self.stride
    }

    fn number_of_elements(&self) -> (n: IndexType) {
        proof {
            use_type_invariant(self);
        }
        self.dim.0 * self.dim.1
    }

    fn convert_1d_2d(&self, index: IndexType) -> (coordinate: (IndexType, IndexType)) {
        proof {
            lemma_coordinate_in_range(index as int, self.spec_dim());
        }
        (index / self.dim.1, index % self.dim.1)
    }

    fn convert_2d_1d(&self, row: IndexType, col: IndexType) -> (index: IndexType) {
        proof {
            use_type_invariant(self);
            lemma_flat_index_in_range(row as int, col as int, self.spec_dim());
            assert(0 <= row * self.dim.1 <= row * self.dim.1 + col) by (nonlinear_arith)
                requires
                    0 <= row,
                    0 <= self.dim.1,
                    0 <= col,
            ;
        }
        row * self.dim.1 + col
    }

    fn convert_2d_raw(&self, row: IndexType, col: IndexType) -> (raw: IndexType) {
        proof {
            use_type_invariant(self);
            lemma_raw_index_bounded(row as int, col as int, self.spec_dim(), self.spec_stride());
            assert(0 <= self.stride.1 * col) by (nonlinear_arith)
                requires
                    0 <= self.stride.1,
                    0 <= col,
            ;
        }
        self.stride.0 * row + self.stride.1 * col
    }

    fn convert_1d_raw(&self, index: IndexType) -> (raw: IndexType) {
        let (row, col) = self.convert_1d_2d(index);
        self.convert_2d_raw(row, col)
    }
}

} // verus!
