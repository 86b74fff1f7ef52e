//! Access to the entries of a matrix.
//!
//! The unchecked traits are what a backing implementation provides: each
//! operation demands an in-range coordinate or flat index and says which
//! entry it hands out. The checked traits are derived from them for every
//! implementor. Reading a value through the checked tier still demands an
//! in-range position; asking for a reference does not, and answers `None`
//! where the position is out of range.
//!
//! Each trait offers access by coordinate and access by a flat index that
//! numbers the entries row by row.

use crate::traits::layout::{col_of, flat_index, in_bounds, lemma_coordinate_in_range, row_of};
use crate::traits::layout::Extent;
use crate::traits::{Layout, LayoutType};
use crate::types::{IndexType, Scalar};
use vstd::pervasive::runtime_assert;
use vstd::prelude::*;

verus! {

/// Read access by value, without bounds checks.
pub trait UnsafeRandomAccessByValue: Layout {
    /// The type of the entries.
    type Item: Scalar;

    /// The entry at position (`row`, `col`).
    spec fn spec_value(&self, row: int, col: int) -> Self::Item;

    /// Returns the entry at position (`row`, `col`).
    fn get_value_unchecked(&self, row: IndexType, col: IndexType) -> (value: Self::Item)
        requires
            in_bounds(row as int, col as int, self.spec_dim()),
        ensures
            value == self.spec_value(row as int, col as int),
    ;

    /// Returns the entry with flat index `index`.
    fn get1d_value_unchecked(&self, index: IndexType) -> (value: Self::Item)
        requires
            index < self.spec_number_of_elements(),
        ensures
            value == self.spec_value(
                row_of(index as int, self.spec_dim().1 as int),
                col_of(index as int, self.spec_dim().1 as int),
            ),
    ;
}

/// The entries of a matrix by their flat index.
pub trait FlatEntries: UnsafeRandomAccessByValue {
    /// The entry with flat index `index`.
    spec fn spec_value1d(&self, index: int) -> Self::Item;
}

impl<Mat: UnsafeRandomAccessByValue> FlatEntries for Mat {
    open spec fn spec_value1d(&self, index: int) -> Self::Item {
        self.spec_value(
            row_of(index, self.spec_dim().1 as int),
            col_of(index, self.spec_dim().1 as int),
        )
    }
}

/// Read access by reference, without bounds checks.
pub trait UnsafeRandomAccessByRef: UnsafeRandomAccessByValue {
    /// Returns a reference to the entry at position (`row`, `col`).
    fn get_unchecked(&self, row: IndexType, col: IndexType) -> (entry: &Self::Item)
        requires
            in_bounds(row as int, col as int, self.spec_dim()),
        ensures
            *entry == self.spec_value(row as int, col as int),
    ;

    /// Returns a reference to the entry with flat index `index`.
    fn get1d_unchecked(&self, index: IndexType) -> (entry: &Self::Item)
        requires
            index < self.spec_number_of_elements(),
        ensures
            *entry == self.spec_value1d(index as int),
    ;
}

/// `true` exactly when `after` is `before` with the entry at (`row`, `col`)
/// replaced by `value`: the layout and every other in-range entry are kept.
pub open spec fn is_update<Mat: UnsafeRandomAccessByValue>(
    before: &Mat,
    after: &Mat,
    row: int,
    col: int,
    value: Mat::Item,
) -> bool {
    &&& after.spec_layout() == before.spec_layout()
    &&& after.spec_value(row, col) == value
    &&& forall|i: int, j: int|
        in_bounds(i, j, before.spec_dim()) && (i != row || j != col) ==> #[trigger] after.spec_value(
            i,
            j,
        ) == before.spec_value(i, j)
}

/// `true` exactly when `a` and `b` have the same extent and the same entry
/// at every position.
pub open spec fn same_entries<A: UnsafeRandomAccessByValue, B: UnsafeRandomAccessByValue<Item = A::Item>>(
    a: &A,
    b: &B,
) -> bool {
    &&& a.spec_dim() == b.spec_dim()
    &&& forall|row: int, col: int|
        in_bounds(row, col, a.spec_dim()) ==> #[trigger] a.spec_value(row, col) == b.spec_value(
            row,
            col,
        )
}

/// Access by flat index and access by coordinate agree: a flat index below
/// the number of entries numbers an in-range position, and the entry with
/// that index is the entry at that position.
pub proof fn lemma_flat_access_consistent<Mat: UnsafeRandomAccessByValue>(mat: &Mat, index: int)
    requires
        0 <= index < mat.spec_number_of_elements(),
    ensures
        in_bounds(
            row_of(index, mat.spec_dim().1 as int),
            col_of(index, mat.spec_dim().1 as int),
            mat.spec_dim(),
        ),
        mat.spec_value1d(index) == mat.spec_value(
            row_of(index, mat.spec_dim().1 as int),
            col_of(index, mat.spec_dim().1 as int),
        ),
        flat_index(
            row_of(index, mat.spec_dim().1 as int),
            col_of(index, mat.spec_dim().1 as int),
            mat.spec_dim().1 as int,
        ) == index,
{
    lemma_coordinate_in_range(index, mat.spec_dim());
}

/// Write access, without bounds checks.
pub trait UnsafeRandomAccessMut: UnsafeRandomAccessByValue {
    /// Returns a mutable reference to the entry at position (`row`, `col`).
    /// What is written through it becomes that entry; nothing else changes.
    fn get_unchecked_mut(&mut self, row: IndexType, col: IndexType) -> (entry: &mut Self::Item)
        requires
            in_bounds(row as int, col as int, old(self).spec_dim()),
        ensures
            *entry == old(self).spec_value(row as int, col as int),
            is_update(old(self), final(self), row as int, col as int, *final(entry)),
    ;

    /// Returns a mutable reference to the entry with flat index `index`.
    /// What is written through it becomes that entry; nothing else changes.
    fn get1d_unchecked_mut(&mut self, index: IndexType) -> (entry: &mut Self::Item)
        requires
            index < old(self).spec_number_of_elements(),
        ensures
            *entry == old(self).spec_value1d(index as int),
            is_update(
                old(self),
                final(self),
                row_of(index as int, old(self).spec_dim().1 as int),
                col_of(index as int, old(self).spec_dim().1 as int),
                *final(entry),
            ),
    ;
}

/// Bounds-checked read access by value.
pub trait RandomAccessByValue: UnsafeRandomAccessByValue {
    /// Returns the entry at position (`row`, `col`).
    fn get_value(&self, row: IndexType, col: IndexType) -> (value: Self::Item)
        requires
            in_bounds(row as int, col as int, self.spec_dim()),
        ensures
            value == self.spec_value(row as int, col as int),
    ;

    /// Returns the entry with flat index `elem`.
    fn get1d_value(&self, elem: IndexType) -> (value: Self::Item)
        requires
            elem < self.spec_number_of_elements(),
        ensures
            value == self.spec_value1d(elem as int),
    ;
}

/// Bounds-checked read access by reference.
pub trait RandomAccessByRef: UnsafeRandomAccessByRef {
    /// Returns a reference to the entry at position (`row`, `col`), or
    /// `None` if the position is out of range.
    fn get(&self, row: IndexType, col: IndexType) -> (entry: Option<&Self::Item>)
        ensures
            entry is Some <==> in_bounds(row as int, col as int, self.spec_dim()),
            entry matches Some(e) ==> *e == self.spec_value(row as int, col as int),
    ;

    /// Returns a reference to the entry with flat index `elem`, or `None`
    /// if the index is out of range.
    fn get1d(&self, elem: IndexType) -> (entry: Option<&Self::Item>)
        ensures
            entry is Some <==> elem < self.spec_number_of_elements(),
            entry matches Some(e) ==> *e == self.spec_value1d(elem as int),
    ;
}

/// Bounds-checked write access.
pub trait RandomAccessMut: UnsafeRandomAccessMut {
    /// Returns a mutable reference to the entry at position (`row`, `col`),
    /// or `None` if the position is out of range. In the first case what is
    /// written through the reference becomes that entry and nothing else
    /// changes; in the second nothing changes at all.
    fn get_mut(&mut self, row: IndexType, col: IndexType) -> (entry: Option<&mut Self::Item>)
        ensures
            entry is Some <==> in_bounds(row as int, col as int, old(self).spec_dim()),
            entry matches Some(e) ==> *e == old(self).spec_value(row as int, col as int)
                && is_update(old(self), final(self), row as int, col as int, *final(e)),
            entry is None ==> *final(self) == *old(self),
    ;

    /// Returns a mutable reference to the entry with flat index `elem`, or
    /// `None` if the index is out of range. In the first case what is
    /// written through the reference becomes that entry and nothing else
    /// changes; in the second nothing changes at all.
    fn get1d_mut(&mut self, elem: IndexType) -> (entry: Option<&mut Self::Item>)
        ensures
            entry is Some <==> elem < old(self).spec_number_of_elements(),
            entry matches Some(e) ==> *e == old(self).spec_value1d(elem as int) && is_update(
                old(self),
                final(self),
                row_of(elem as int, old(self).spec_dim().1 as int),
                col_of(elem as int, old(self).spec_dim().1 as int),
                *final(e),
            ),
            entry is None ==> *final(self) == *old(self),
    ;
}

/// Tells whether (`row`, `col`) is a position in a matrix of extent `dim`.
pub fn check_dimension(row: IndexType, col: IndexType, dim: (IndexType, IndexType)) -> (ok: bool)
    ensures
        ok == in_bounds(row as int, col as int, (dim.0 as nat, dim.1 as nat)),
{
    row < dim.0 && col < dim.1
}

/// Tells whether `elem` is a flat index of a matrix with `nelems` entries.
pub fn check_dimension1d(elem: IndexType, nelems: IndexType) -> (ok: bool)
    ensures
        ok == (elem < nelems),
{
    elem < nelems
}

/// Stops the program unless (`row`, `col`) is a position in a matrix of
/// extent `dim`. Verified callers show that it is.
pub fn assert_dimension(row: IndexType, col: IndexType, dim: (IndexType, IndexType))
    requires
        in_bounds(row as int, col as int, (dim.0 as nat, dim.1 as nat)),
{
    runtime_assert(row < dim.0);
    runtime_assert(col < dim.1);
}

/// Stops the program unless `elem` is a flat index of a matrix with
/// `nelems` entries. Verified callers show that it is.
pub fn assert_dimension1d(elem: IndexType, nelems: IndexType)
    requires
        elem < nelems,
{
    runtime_assert(elem < nelems);
}

impl<Mat: UnsafeRandomAccessByValue> RandomAccessByValue for Mat {
    fn get_value(&self, row: IndexType, col: IndexType) -> (value: Self::Item) {
        assert_dimension(row, col, self.layout().dim());
        self.get_value_unchecked(row, col)
    }

    fn get1d_value(&self, elem: IndexType) -> (value: Self::Item) {
        assert_dimension1d(elem, self.layout().number_of_elements());
        self.get1d_value_unchecked(elem)
    }
}

impl<Mat: UnsafeRandomAccessMut> RandomAccessMut for Mat {
    fn get_mut(&mut self, row: IndexType, col: IndexType) -> (entry: Option<&mut Self::Item>) {
        if check_dimension(row, col, self.layout().dim()) {
            Some(self.get_unchecked_mut(row, col))
        } else {
            None
        }
    }

    fn get1d_mut(&mut self, elem: IndexType) -> (entry: Option<&mut Self::Item>) {
        if check_dimension1d(elem, self.layout().number_of_elements()) {
            Some(self.get1d_unchecked_mut(elem))
        } else {
            None
        }
    }
}

impl<Mat: UnsafeRandomAccessByRef> RandomAccessByRef for Mat {
    fn get(&self, row: IndexType, col: IndexType) -> (entry: Option<&Self::Item>) {
        if check_dimension(row, col, self.layout().dim()) {
            Some(self.get_unchecked(row, col))
        } else {
            None
        }
    }

    fn get1d(&self, elem: IndexType) -> (entry: Option<&Self::Item>) {
        if check_dimension1d(elem, self.layout().number_of_elements()) {
            Some(self.get1d_unchecked(elem))
        } else {
            None
        }
    }
}

} // verus!
