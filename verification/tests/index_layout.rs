use rlst::index_layout::DefaultSerialIndexLayout;
use rlst::traits::IndexLayout;
use rlst::types::RlstError;

#[test]
fn test_local_index_layout() {
    let index_layout = DefaultSerialIndexLayout::new(14);

    // Test that the range is correct on rank 0
    assert_eq!(index_layout.index_range(0).unwrap(), (0, 14));

    // Test that the number of global indices is correct.
    assert_eq!(index_layout.number_of_global_indices(), 14);

    // Test that map works

    assert_eq!(index_layout.local2global(2).unwrap(), 2);
}

#[test]
fn only_rank_zero_exists() {
    let index_layout = DefaultSerialIndexLayout::new(14);
    assert_eq!(index_layout.index_range(1), Err(RlstError::MpiRankError(1)));
    assert_eq!(index_layout.index_range(7), Err(RlstError::MpiRankError(7)));
    assert_eq!(index_layout.global2local(1, 3), None);
}

#[test]
fn the_error_names_the_rank_in_32_bits() {
    let index_layout = DefaultSerialIndexLayout::new(14);
    assert_eq!(
        index_layout.index_range(i32::MAX as usize),
        Err(RlstError::MpiRankError(i32::MAX))
    );
    assert_eq!(
        index_layout.index_range(i32::MAX as usize + 1),
        Err(RlstError::MpiRankError(i32::MIN))
    );
    assert_eq!(index_layout.index_range(usize::MAX), Err(RlstError::MpiRankError(-1)));
}

#[test]
fn local_and_global_indices_coincide() {
    let index_layout = DefaultSerialIndexLayout::new(14);
    assert_eq!(index_layout.local_range(), (0, 14));
    assert_eq!(index_layout.number_of_local_indices(), 14);
    assert_eq!(index_layout.local2global(0), Some(0));
    assert_eq!(index_layout.local2global(13), Some(13));
    assert_eq!(index_layout.local2global(14), None);
    assert_eq!(index_layout.global2local(0, 13), Some(13));
    assert_eq!(index_layout.global2local(0, 14), None);
    assert_eq!(index_layout.rank_from_index(13), Some(0));
    assert_eq!(index_layout.rank_from_index(14), None);
}

#[test]
fn empty_index_layout() {
    let index_layout = DefaultSerialIndexLayout::new(0);
    assert_eq!(index_layout.index_range(0).unwrap(), (0, 0));
    assert_eq!(index_layout.number_of_global_indices(), 0);
    assert_eq!(index_layout.local2global(0), None);
    assert_eq!(index_layout.rank_from_index(0), None);
}
