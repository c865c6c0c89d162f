use voxel_terrain::utils::{checked_index, from_1d_idx, To1DIndex};

#[test]
fn linear_index_follows_the_formula() {
    assert_eq!((1usize, 2usize, 3usize, 17usize).to_1d_idx(), 1 + 2 * 17 + 3 * 17 * 17);
    assert_eq!((0usize, 0usize, 0usize, 17usize).to_1d_idx(), 0);
    assert_eq!((16usize, 16usize, 16usize, 17usize).to_1d_idx(), 17 * 17 * 17 - 1);
}

#[test]
fn index_round_trip_over_a_whole_cube() {
    let size: usize = 5;
    for z in 0..size {
        for y in 0..size {
            for x in 0..size {
                let index = (x, y, z, size).to_1d_idx();
                assert_eq!(from_1d_idx(index, size), (x, y, z));
                assert_eq!(checked_index(x, y, z, size), Some(index));
            }
        }
    }
}

#[test]
fn checked_index_reports_overflow() {
    assert_eq!(checked_index(0, 0, 1, usize::MAX), None);
    assert_eq!(checked_index(0, 2, 0, usize::MAX), None);
    assert_eq!(checked_index(usize::MAX, 1, 0, 1), None);
    assert_eq!(checked_index(5, 0, 0, usize::MAX), Some(5));
}
