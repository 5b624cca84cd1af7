use handoff::channels;

#[test]
fn unbounded_demo_streams_in_order() {
    let nums = channels::receive_nums();
    assert_eq!(nums, vec![1, 2, 3, 4, 5, 6, 7, 8, 9]);
}

#[test]
fn bounded_demo_streams_in_order() {
    let nums = channels::receive_nums_sync();
    assert_eq!(nums, vec![1, 2, 3, 4, 5, 6, 7, 8, 9]);
}

#[test]
fn bounded_demo_loop_streams_in_order() {
    let nums = channels::receive_nums_sync_loop();
    assert_eq!(nums, vec![1, 2, 3, 4, 5, 6, 7, 8, 9]);
}

#[test]
fn demo_with_result_reports_error_outcome() {
    let (nums, outcome) = channels::receive_nums_sync_with_result();
    assert_eq!(nums, vec![1, 2, 3, 4, 5, 6, 7, 8, 9]);
    assert_eq!(outcome, Err(String::from("some error")));
}

#[test]
fn demo_driver_runs() {
    channels::run();
}
