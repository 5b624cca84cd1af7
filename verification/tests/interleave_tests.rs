use handoff::interleave::run_two_producers;

fn split_streams(out: &[(bool, i32)]) -> (Vec<i32>, Vec<i32>) {
    let mut first: Vec<i32> = Vec::new();
    let mut second: Vec<i32> = Vec::new();
    for &(from_second, item) in out {
        if from_second {
            second.push(item);
        } else {
            first.push(item);
        }
    }
    (first, second)
}

#[test]
fn two_producers_each_fifo_and_exactly_once() {
    let script_a = vec![1, 2, 3, 4];
    let script_b = vec![10, 20, 30];
    let schedule = vec![false, true, true, false, true, false];
    let out = run_two_producers(script_a.clone(), script_b.clone(), Some(1), schedule);
    assert_eq!(out.len(), script_a.len() + script_b.len());
    let (first, second) = split_streams(&out);
    assert_eq!(first, script_a);
    assert_eq!(second, script_b);
}

#[test]
fn two_producers_on_rendezvous_channel() {
    let script_a = vec![5, 6];
    let script_b = vec![7, 8, 9];
    let out = run_two_producers(script_a.clone(), script_b.clone(), Some(0), vec![true, false]);
    assert_eq!(out.len(), 5);
    let (first, second) = split_streams(&out);
    assert_eq!(first, script_a);
    assert_eq!(second, script_b);
}

#[test]
fn two_producers_of_messages() {
    let script_a: Vec<String> =
        ["hi", "from", "the", "thread"].iter().map(|s| String::from(*s)).collect();
    let script_b: Vec<String> =
        ["more", "messages", "for", "you"].iter().map(|s| String::from(*s)).collect();
    let schedule = vec![true, false, false, true];
    let out = run_two_producers(script_a.clone(), script_b.clone(), None, schedule);
    assert_eq!(out.len(), 8);
    let mut first: Vec<String> = Vec::new();
    let mut second: Vec<String> = Vec::new();
    for (from_second, item) in out {
        if from_second {
            second.push(item);
        } else {
            first.push(item);
        }
    }
    assert_eq!(first, script_a);
    assert_eq!(second, script_b);
}

#[test]
fn two_producers_unbounded_empty_schedule() {
    let script_a = vec![1];
    let script_b = vec![2];
    let out = run_two_producers(script_a.clone(), script_b.clone(), None, Vec::new());
    let (first, second) = split_streams(&out);
    assert_eq!(first, script_a);
    assert_eq!(second, script_b);
}
