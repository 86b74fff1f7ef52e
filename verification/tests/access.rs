use rlst::traits::random_access::{
    assert_dimension, assert_dimension1d, check_dimension, check_dimension1d,
};
use rlst::traits::{
    RandomAccessByRef, RandomAccessByValue, RandomAccessMut, UnsafeRandomAccessByRef,
    UnsafeRandomAccessByValue, UnsafeRandomAccessMut,
};
use rlst::{ColumnVectorD, Matrix, MatrixD, RowVectorD};

fn counting(rows: usize, cols: usize) -> MatrixD<i64> {
    let mut mat = MatrixD::<i64>::zeros_from_dim(rows, cols);
    let values: Vec<i64> = (0..(rows * cols) as i64).collect();
    mat.fill_from_values(&values);
    mat
}

#[test]
fn new_matrix_is_zero_everywhere() {
    let mat = MatrixD::<i64>::zeros_from_dim(3, 2);
    for row in 0..3 {
        for col in 0..2 {
            assert_eq!(mat.get_value(row, col), 0);
        }
    }
    let small = MatrixD::<i32>::zeros_from_dim(1, 1);
    assert_eq!(small.get_value(0, 0), 0);
}

#[test]
fn reference_access_in_range_is_present() {
    let mat = counting(2, 3);
    assert_eq!(mat.get(0, 0), Some(&0));
    assert_eq!(mat.get(1, 2), Some(&5));
    assert_eq!(mat.get1d(0), Some(&0));
    assert_eq!(mat.get1d(5), Some(&5));
}

#[test]
fn reference_access_out_of_range_is_absent() {
    let mat = counting(2, 3);
    assert_eq!(mat.get(2, 0), None);
    assert_eq!(mat.get(0, 3), None);
    assert_eq!(mat.get(2, 3), None);
    assert_eq!(mat.get(usize::MAX, usize::MAX), None);
    assert_eq!(mat.get1d(6), None);
    assert_eq!(mat.get1d(usize::MAX), None);
}

#[test]
fn mutable_access_in_range_is_present() {
    let mut mat = counting(2, 3);
    assert_eq!(mat.get_mut(1, 2), Some(&mut 5));
    assert_eq!(mat.get1d_mut(4), Some(&mut 4));
}

#[test]
fn mutable_access_out_of_range_is_absent_and_changes_nothing() {
    let mut mat = counting(2, 3);
    assert!(mat.get_mut(2, 0).is_none());
    assert!(mat.get_mut(0, 3).is_none());
    assert!(mat.get1d_mut(6).is_none());
    for index in 0..6 {
        assert_eq!(mat.get1d_value(index), index as i64);
    }
}

#[test]
fn writing_changes_one_entry_only() {
    let mut mat = counting(2, 3);
    *mat.get_mut(0, 1).unwrap() = 40;
    *mat.get1d_mut(5).unwrap() = 50;
    *mat.get_unchecked_mut(1, 0) = 60;
    *mat.get1d_unchecked_mut(0) = 70;
    let expected = [70, 40, 2, 60, 4, 50];
    for index in 0..6 {
        assert_eq!(mat.get1d_value(index), expected[index]);
    }
    assert_eq!(mat.dim(), (2, 3));
}

#[test]
fn flat_index_numbers_the_entries_row_by_row() {
    let mat = counting(3, 4);
    assert_eq!(mat.get_value(1, 2), 6);
    assert_eq!(mat.get_value(2, 0), 8);
    for index in 0..12 {
        let (row, col) = (index / 4, index % 4);
        assert_eq!(mat.get1d_value(index), mat.get_value(row, col));
        assert_eq!(mat.get1d_value_unchecked(index), mat.get_value_unchecked(row, col));
        assert_eq!(mat.get1d_unchecked(index), mat.get_unchecked(row, col));
        assert_eq!(mat.get1d(index), mat.get(row, col));
    }
}

#[test]
fn indexing_by_coordinate() {
    let mut mat = counting(2, 3);
    assert_eq!(mat[[0, 2]], 2);
    assert_eq!(mat[[1, 0]], 3);
    *mat.index_mut([1, 0]) = -3;
    assert_eq!(mat[[1, 0]], -3);
    assert_eq!(mat[[0, 0]], 0);
}

#[test]
fn a_view_has_the_entries_of_its_referent() {
    let mat = counting(2, 3);
    let view = Matrix::from_ref(&mat);
    assert_eq!(view.dim(), (2, 3));
    for row in 0..2 {
        for col in 0..3 {
            assert_eq!(view.get_value(row, col), mat.get_value(row, col));
            assert_eq!(view[[row, col]], mat[[row, col]]);
        }
    }
    assert_eq!(view.get1d_value(4), 4);
    assert_eq!(view.get(2, 0), None);
    assert_eq!(view.get1d(5), Some(&5));
}

#[test]
fn filling_sets_every_entry() {
    let mut mat = MatrixD::<i64>::zeros_from_dim(2, 2);
    mat.fill_from_values(&[9, 8, 7, 6]);
    assert_eq!(mat.get_value(0, 0), 9);
    assert_eq!(mat.get_value(0, 1), 8);
    assert_eq!(mat.get_value(1, 0), 7);
    assert_eq!(mat.get_value(1, 1), 6);
    assert_eq!(mat.dim(), (2, 2));
}

#[test]
fn empty_matrix_has_no_entries() {
    let mut mat = MatrixD::<i64>::zeros_from_dim(0, 3);
    assert_eq!(mat.dim(), (0, 3));
    assert_eq!(mat.get(0, 0), None);
    assert_eq!(mat.get1d(0), None);
    mat.fill_from_values(&[]);
    assert_eq!(mat.eval().dim(), (0, 3));
}

#[test]
fn vectors_have_a_length() {
    let mut column = ColumnVectorD::<i64>::zeros_from_length(4);
    assert_eq!(column.length(), 4);
    assert_eq!(column.dim(), (4, 1));
    *column.get_mut(3, 0).unwrap() = 11;
    assert_eq!(column.get1d_value(3), 11);
    assert_eq!(column.get(0, 1), None);

    let mut row = RowVectorD::<i64>::zeros_from_length(3);
    assert_eq!(row.length(), 3);
    assert_eq!(row.dim(), (1, 3));
    *row.get_mut(0, 2).unwrap() = 12;
    assert_eq!(row.get1d_value(2), 12);
    assert_eq!(row.get(1, 0), None);

    let empty = ColumnVectorD::<i64>::zeros_from_length(0);
    assert_eq!(empty.length(), 0);
}

#[test]
fn sum_of_vectors_has_their_length() {
    let mut a = ColumnVectorD::<i64>::zeros_from_length(3);
    let mut b = ColumnVectorD::<i64>::zeros_from_length(3);
    a.fill_from_values(&[1, 2, 3]);
    b.fill_from_values(&[10, 20, 30]);
    let sum = &a + &b;
    assert_eq!(sum.length(), 3);
    let r = sum.eval();
    assert_eq!(r.dim(), (3, 1));
    assert_eq!(r.get_value(0, 0), 11);
    assert_eq!(r.get_value(1, 0), 22);
    assert_eq!(r.get_value(2, 0), 33);
}

#[test]
fn dimension_checks() {
    assert!(check_dimension(0, 0, (1, 1)));
    assert!(check_dimension(1, 2, (2, 3)));
    assert!(!check_dimension(2, 2, (2, 3)));
    assert!(!check_dimension(1, 3, (2, 3)));
    assert!(!check_dimension(0, 0, (0, 3)));
    assert!(!check_dimension(0, 0, (3, 0)));
    assert!(check_dimension1d(5, 6));
    assert!(!check_dimension1d(6, 6));
    assert!(!check_dimension1d(0, 0));
    assert_dimension(1, 2, (2, 3));
    assert_dimension1d(5, 6);
}
