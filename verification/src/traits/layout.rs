//! The extent of a matrix and the order in which its entries are numbered.

use crate::types::IndexType;
use vstd::prelude::*;

verus! {

/// The flat index of the entry `(row, col)` in a matrix with `cols` columns:
/// entries are numbered row by row.
pub open spec fn flat_index(row: int, col: int, cols: int) -> int {
    row * cols + col
}

/// The row of the entry with flat index `index` in a matrix with `cols`
/// columns.
pub open spec fn row_of(index: int, cols: int) -> int {
    index / cols
}

/// The column of the entry with flat index `index` in a matrix with `cols`
/// columns.
pub open spec fn col_of(index: int, cols: int) -> int {
    index % cols
}

/// `true` exactly when `(row, col)` is a coordinate of a matrix of extent
/// `dim`.
pub open spec fn in_bounds(row: int, col: int, dim: (nat, nat)) -> bool {
    0 <= row < dim.0 && 0 <= col < dim.1
}

/// The offset in memory of the entry `(row, col)` under the given strides.
pub open spec fn raw_index(row: int, col: int, stride: (nat, nat)) -> int {
    stride.0 * row + stride.1 * col
}

/// A descriptor of the extent of a matrix, of the numbering of its entries
/// and of their placement in memory.
pub trait LayoutType {
    /// The number of rows and the number of columns.
    spec fn spec_dim(&self) -> (nat, nat);

    /// The distance in memory between two neighbours in a column and
    /// between two neighbours in a row.
    spec fn spec_stride(&self) -> (nat, nat);

    /// Returns the number of rows and the number of columns.
    fn dim(&self) -> (d: (IndexType, IndexType))
        ensures
            d.0 == self.spec_dim().0,
            d.1 == self.spec_dim().1,
    ;

    /// Returns the strides along the row axis and along the column axis.
    fn stride(&self) -> (s: (IndexType, IndexType))
        ensures
            s.0 == self.spec_stride().0,
            s.1 == self.spec_stride().1,
    ;

    /// Returns the number of entries.
    fn number_of_elements(&self) -> (n: IndexType)
        ensures
            n == self.spec_dim().0 * self.spec_dim().1,
    ;

    /// Maps a flat index to the coordinate that it numbers.
    fn convert_1d_2d(&self, index: IndexType) -> (coordinate: (IndexType, IndexType))
        requires
            index < self.spec_dim().0 * self.spec_dim().1,
        ensures
            coordinate.0 == row_of(index as int, self.spec_dim().1 as int),
            coordinate.1 == col_of(index as int, self.spec_dim().1 as int),
            in_bounds(coordinate.0 as int, coordinate.1 as int, self.spec_dim()),
    ;

    /// Maps a coordinate to its flat index.
    fn convert_2d_1d(&self, row: IndexType, col: IndexType) -> (index: IndexType)
        requires
            in_bounds(row as int, col as int, self.spec_dim()),
        ensures
            index == flat_index(row as int, col as int, self.spec_dim().1 as int),
            index < self.spec_dim().0 * self.spec_dim().1,
    ;

    /// Maps a coordinate to its offset in memory.
    fn convert_2d_raw(&self, row: IndexType, col: IndexType) -> (raw: IndexType)
        requires
            in_bounds(row as int, col as int, self.spec_dim()),
        ensures
            raw == raw_index(row as int, col as int, self.spec_stride()),
    ;

    /// Maps a flat index to the offset in memory of the entry that it
    /// numbers.
    fn convert_1d_raw(&self, index: IndexType) -> (raw: IndexType)
        requires
            index < self.spec_dim().0 * self.spec_dim().1,
        ensures
            raw == raw_index(
                row_of(index as int, self.spec_dim().1 as int),
                col_of(index as int, self.spec_dim().1 as int),
                self.spec_stride(),
            ),
    ;
}

/// Anything that has a layout.
pub trait Layout: Sized {
    /// The type of the layout descriptor.
    type Impl: LayoutType;

    /// The layout descriptor.
    spec fn spec_layout(&self) -> Self::Impl;

    /// Returns the layout descriptor.
    fn layout(&self) -> (l: &Self::Impl)
        ensures
            *l == self.spec_layout(),
    ;
}

/// The extent of anything that has a layout.
pub trait Extent: Layout {
    /// The number of rows and the number of columns.
    spec fn spec_dim(&self) -> (nat, nat);

    /// The number of entries.
    spec fn spec_number_of_elements(&self) -> nat;
}

impl<L: Layout> Extent for L {
    open spec fn spec_dim(&self) -> (nat, nat) {
        self.spec_layout().spec_dim()
    }

    open spec fn spec_number_of_elements(&self) -> nat {
        self.spec_layout().spec_dim().0 * self.spec_layout().spec_dim().1
    }
}

/// Every in-range coordinate has a flat index below the number of entries,
/// and that index leads back to the coordinate.
pub proof fn lemma_flat_index_in_range(row: int, col: int, dim: (nat, nat))
    requires
        in_bounds(row, col, dim),
    ensures
        0 <= flat_index(row, col, dim.1 as int) < dim.0 * dim.1,
        row_of(flat_index(row, col, dim.1 as int), dim.1 as int) == row,
        col_of(flat_index(row, col, dim.1 as int), dim.1 as int) == col,
{
    let cols = dim.1 as int;
    let rows = dim.0 as int;
    assert(row * cols + col < rows * cols && 0 <= row * cols) by (nonlinear_arith)
        requires
            0 <= row < rows,
            0 <= col < cols,
    ;
    vstd::arithmetic::div_mod::lemma_fundamental_div_mod_converse(
        row * cols + col,
        cols,
        row,
        col,
    );
}

/// Every flat index below the number of entries numbers an in-range
/// coordinate, and that coordinate leads back to the index.
pub proof fn lemma_coordinate_in_range(index: int, dim: (nat, nat))
    requires
        0 <= index < dim.0 * dim.1,
    ensures
        in_bounds(row_of(index, dim.1 as int), col_of(index, dim.1 as int), dim),
        flat_index(row_of(index, dim.1 as int), col_of(index, dim.1 as int), dim.1 as int)
            == index,
{
    let cols = dim.1 as int;
    let rows = dim.0 as int;
    assert(cols > 0) by (nonlinear_arith)
        requires
            0 <= index < rows * cols,
            0 <= cols,
    ;
    vstd::arithmetic::div_mod::lemma_fundamental_div_mod(index, cols);
    vstd::arithmetic::div_mod::lemma_mod_bound(index, cols);
    vstd::arithmetic::div_mod::lemma_div_pos_is_pos(index, cols);
    assert(index < cols * rows) by (nonlinear_arith)
        requires
            index < rows * cols,
    ;
    vstd::arithmetic::div_mod::lemma_multiply_divide_lt(index, cols, rows);
    assert((index / cols) * cols == cols * (index / cols)) by (nonlinear_arith);
}

} // verus!
