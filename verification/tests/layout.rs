use rlst::traits::LayoutType;
use rlst::DefaultLayout;

#[test]
fn layout_reports_extent_and_strides() {
    let layout = DefaultLayout::from_dimension((2, 3), (3, 1));
    assert_eq!(layout.dim(), (2, 3));
    assert_eq!(layout.stride(), (3, 1));
    assert_eq!(layout.number_of_elements(), 6);
}

#[test]
fn empty_layout() {
    let layout = DefaultLayout::from_dimension((0, 7), (7, 1));
    assert_eq!(layout.dim(), (0, 7));
    assert_eq!(layout.number_of_elements(), 0);
    let layout = DefaultLayout::from_dimension((7, 0), (0, 1));
    assert_eq!(layout.number_of_elements(), 0);
}

#[test]
fn coordinates_are_numbered_row_by_row() {
    let layout = DefaultLayout::from_dimension((2, 3), (3, 1));
    assert_eq!(layout.convert_2d_1d(0, 0), 0);
    assert_eq!(layout.convert_2d_1d(0, 2), 2);
    assert_eq!(layout.convert_2d_1d(1, 0), 3);
    assert_eq!(layout.convert_2d_1d(1, 2), 5);
    assert_eq!(layout.convert_1d_2d(0), (0, 0));
    assert_eq!(layout.convert_1d_2d(2), (0, 2));
    assert_eq!(layout.convert_1d_2d(3), (1, 0));
    assert_eq!(layout.convert_1d_2d(4), (1, 1));
}

#[test]
fn conversions_are_inverse_to_each_other() {
    let layout = DefaultLayout::from_dimension((4, 5), (5, 1));
    for index in 0..20 {
        let (row, col) = layout.convert_1d_2d(index);
        assert!(row < 4 && col < 5);
        assert_eq!(layout.convert_2d_1d(row, col), index);
    }
    for row in 0..4 {
        for col in 0..5 {
            assert_eq!(layout.convert_1d_2d(layout.convert_2d_1d(row, col)), (row, col));
        }
    }
}

#[test]
fn offsets_follow_the_strides() {
    let row_major = DefaultLayout::from_dimension((2, 3), (3, 1));
    assert_eq!(row_major.convert_2d_raw(1, 2), 5);
    assert_eq!(row_major.convert_1d_raw(4), 4);

    let column_major = DefaultLayout::from_dimension((2, 3), (1, 2));
    assert_eq!(column_major.convert_2d_raw(1, 2), 5);
    assert_eq!(column_major.convert_2d_raw(1, 1), 3);
    assert_eq!(column_major.convert_1d_raw(4), 3);
    assert_eq!(column_major.convert_1d_raw(2), 4);

    let padded = DefaultLayout::from_dimension((2, 2), (10, 3));
    assert_eq!(padded.convert_2d_raw(1, 1), 13);
    assert_eq!(padded.convert_1d_raw(2), 10);
}
