use handoff::session::JoinAttempt;
use handoff::session::Supervisor;

#[test]
fn join_after_drain_returns_result_on_rendezvous() {
    // Capacity bound zero: every item is handed over in a rendezvous, and
    // the terminal result still comes through after the drain.
    let sup: Supervisor<i32, &str> = Supervisor::spawn(vec![1, 2, 3], "done", Some(0));
    let (items, result) = sup.join_after_drain();
    assert_eq!(items, vec![1, 2, 3]);
    assert_eq!(result, "done");
}

#[test]
fn drain_then_join_step_by_step() {
    // The scenario with capacity bound one: nine numbers cross the channel
    // in order, the channel reports closed afterwards, and the join gives
    // the producer's result.
    let script: Vec<i32> = (1..=9).collect();
    let mut sup: Supervisor<i32, i32> = Supervisor::spawn(script, 42, Some(1));
    let items = sup.drain();
    assert_eq!(items, vec![1, 2, 3, 4, 5, 6, 7, 8, 9]);
    assert!(sup.producer_done());
    assert!(sup.channel_closed());
    assert_eq!(sup.join(), 42);
}

#[test]
fn recv_yields_stream_then_none() {
    let mut sup: Supervisor<i32, ()> = Supervisor::spawn(vec![10, 20], (), Some(1));
    assert_eq!(sup.recv(), Some(10));
    assert_eq!(sup.recv(), Some(20));
    assert_eq!(sup.recv(), None);
    assert_eq!(sup.recv(), None);
}

#[test]
fn empty_script_drains_to_nothing() {
    let sup: Supervisor<i32, &str> = Supervisor::spawn(Vec::new(), "idle", Some(0));
    let (items, result) = sup.join_after_drain();
    assert!(items.is_empty());
    assert_eq!(result, "idle");
}

#[test]
fn supervisor_carries_owned_messages() {
    let script: Vec<String> =
        ["hi", "from", "the", "thread"].iter().map(|s| String::from(*s)).collect();
    let sup: Supervisor<String, ()> = Supervisor::spawn(script.clone(), (), None);
    let (items, ()) = sup.join_after_drain();
    assert_eq!(items, script);
}

#[test]
fn join_before_drain_deadlocks_on_bounded_channel() {
    // Joining first with capacity bound zero and items still to send is
    // the classic deadlock; the supervisor detects it instead of hanging,
    // and draining afterwards still recovers everything.
    let sup: Supervisor<i32, i32> = Supervisor::spawn(vec![1, 2], 7, Some(0));
    match sup.join_without_drain() {
        JoinAttempt::WouldDeadlock(recovered) => {
            let (items, result) = recovered.join_after_drain();
            assert_eq!(items, vec![1, 2]);
            assert_eq!(result, 7);
        },
        JoinAttempt::Completed(_) => {
            panic!("joining before draining must not complete on a rendezvous channel")
        },
    }
}

#[test]
fn join_before_drain_completes_on_unbounded_channel() {
    let sup: Supervisor<i32, i32> = Supervisor::spawn(vec![1, 2, 3], 7, None);
    match sup.join_without_drain() {
        JoinAttempt::Completed(result) => assert_eq!(result, 7),
        JoinAttempt::WouldDeadlock(_) => {
            panic!("an unbounded channel absorbs the whole script")
        },
    }
}

#[test]
fn join_before_drain_deadlocks_past_small_bound() {
    // Two slots, three items: the producer gets stuck on the third.
    let sup: Supervisor<i32, ()> = Supervisor::spawn(vec![1, 2, 3], (), Some(2));
    assert!(matches!(sup.join_without_drain(), JoinAttempt::WouldDeadlock(_)));
    // Two slots, two items: everything fits, no deadlock.
    let sup: Supervisor<i32, ()> = Supervisor::spawn(vec![1, 2], (), Some(2));
    assert!(matches!(sup.join_without_drain(), JoinAttempt::Completed(())));
}

#[test]
fn producer_error_outcome_after_drain() {
    // The producer sends nine items and then reports an error outcome; the
    // consumer drains all nine first, and the join returns exactly that
    // error.
    let script: Vec<i32> = (1..=9).collect();
    let outcome: Result<String, String> = Err(String::from("worker failed"));
    let sup = Supervisor::spawn(script, outcome, Some(0));
    let (items, result) = sup.join_after_drain();
    assert_eq!(items, (1..=9).collect::<Vec<i32>>());
    assert_eq!(result, Err(String::from("worker failed")));
}
