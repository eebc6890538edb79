use libsql::bridge::Bridge;

#[test]
fn work_completes_in_submission_order() {
    let mut b = Bridge::new(8);
    assert_eq!(b.try_submit(), Some(0));
    assert_eq!(b.try_submit(), Some(1));
    assert_eq!(b.try_submit(), Some(2));

    assert_eq!(b.start_next(), Some(0));
    assert_eq!(b.finish(), Some(0));
    assert_eq!(b.start_next(), Some(1));
    assert_eq!(b.finish(), Some(1));
    assert_eq!(b.start_next(), Some(2));
    assert_eq!(b.finish(), Some(2));

    assert_eq!(b.completed, vec![0, 1, 2]);
    assert_eq!(b.completed_len(), 3);
}

#[test]
fn at_most_one_item_in_flight() {
    let mut b = Bridge::new(8);
    b.try_submit();
    b.try_submit();
    assert_eq!(b.start_next(), Some(0));
    // With an item running, nothing else may start.
    assert_eq!(b.start_next(), None);
    assert_eq!(b.running, Some(0));
    assert_eq!(b.finish(), Some(0));
    assert_eq!(b.start_next(), Some(1));
}

#[test]
fn full_queue_pushes_back_without_losing_work() {
    let mut b = Bridge::new(2);
    assert_eq!(b.try_submit(), Some(0));
    assert_eq!(b.try_submit(), Some(1));
    // Backpressure: the submission is refused, not dropped or replaced.
    assert_eq!(b.try_submit(), None);
    assert_eq!(b.queued, vec![0, 1]);
    // Draining one makes room again.
    assert_eq!(b.start_next(), Some(0));
    assert_eq!(b.try_submit(), Some(2));
}

#[test]
fn finish_without_running_item_is_a_no_op() {
    let mut b = Bridge::new(2);
    assert_eq!(b.finish(), None);
    b.try_submit();
    assert_eq!(b.finish(), None);
    assert_eq!(b.queued, vec![0]);
}

#[test]
fn interleaved_submissions_keep_order() {
    let mut b = Bridge::new(4);
    b.try_submit();
    b.try_submit();
    assert_eq!(b.start_next(), Some(0));
    b.try_submit();
    assert_eq!(b.finish(), Some(0));
    assert_eq!(b.start_next(), Some(1));
    assert_eq!(b.finish(), Some(1));
    b.try_submit();
    assert_eq!(b.start_next(), Some(2));
    assert_eq!(b.finish(), Some(2));
    assert_eq!(b.start_next(), Some(3));
    assert_eq!(b.finish(), Some(3));
    assert_eq!(b.completed, vec![0, 1, 2, 3]);
}
