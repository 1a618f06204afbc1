use fff::records::batches_to_write;

#[test]
fn no_batch_gives_none() {
    assert_eq!(batches_to_write(&vec![], 500), 0);
    assert_eq!(batches_to_write(&vec![], 0), 0);
}

#[test]
fn batches_are_taken_until_the_limit_is_reached() {
    assert_eq!(batches_to_write(&vec![10, 20, 30], 25), 2);
    assert_eq!(batches_to_write(&vec![10, 15, 5], 25), 2);
    assert_eq!(batches_to_write(&vec![10, 14, 5], 25), 3);
    assert_eq!(batches_to_write(&vec![100, 100, 100, 100, 100, 100], 500), 5);
}

#[test]
fn the_batch_that_reaches_the_limit_is_taken_whole() {
    assert_eq!(batches_to_write(&vec![600, 10], 500), 1);
    assert_eq!(batches_to_write(&vec![499, 1000, 1], 500), 2);
}

#[test]
fn the_first_batch_is_always_taken() {
    assert_eq!(batches_to_write(&vec![7], 0), 1);
    assert_eq!(batches_to_write(&vec![0, 7], 0), 1);
}

#[test]
fn all_batches_are_taken_below_the_limit() {
    assert_eq!(batches_to_write(&vec![1, 2, 3], 500), 3);
    assert_eq!(batches_to_write(&vec![0, 0, 0], 1), 3);
    assert_eq!(batches_to_write(&vec![5], usize::MAX), 1);
}

#[test]
fn large_batches_do_not_overflow() {
    assert_eq!(batches_to_write(&vec![usize::MAX, usize::MAX], usize::MAX), 1);
    assert_eq!(batches_to_write(&vec![usize::MAX - 1, usize::MAX, 3], usize::MAX), 2);
}
