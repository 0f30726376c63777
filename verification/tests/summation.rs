use secret_sum::summation::zk_compute;

#[test]
fn sums_no_contributions_to_zero() {
    assert_eq!(zk_compute(&vec![]), 0);
}

#[test]
fn sums_two_contributions() {
    assert_eq!(zk_compute(&vec![7, 12]), 19);
}

#[test]
fn sums_many_contributions() {
    assert_eq!(zk_compute(&vec![1, 2, 3, 4, 5]), 15);
}

#[test]
fn sums_with_wraparound() {
    assert_eq!(zk_compute(&vec![u32::MAX, 1]), 0);
    assert_eq!(zk_compute(&vec![u32::MAX, 5]), 4);
}
