use api_test::order::rank;

#[test]
fn rank_of_nothing_is_empty() {
    assert!(rank(&vec![]).is_empty());
}

#[test]
fn rank_lists_positions_by_ascending_key() {
    assert_eq!(rank(&vec![30, 10, 20]), vec![1, 2, 0]);
    assert_eq!(rank(&vec![1, 2, 3]), vec![0, 1, 2]);
    assert_eq!(rank(&vec![3, 2, 1]), vec![2, 1, 0]);
}

#[test]
fn rank_keeps_equal_keys_in_their_order() {
    assert_eq!(rank(&vec![5, 3, 5, 3, 5]), vec![1, 3, 0, 2, 4]);
    assert_eq!(rank(&vec![7, 7, 7]), vec![0, 1, 2]);
}

#[test]
fn rank_takes_the_largest_and_the_smallest_key() {
    assert_eq!(rank(&vec![u32::MAX, 0, u32::MAX, 0]), vec![1, 3, 0, 2]);
}
