//! Producer/consumer demonstrations on the handoff channel.
//!
//! Each demonstration pairs a producer streaming the numbers one through
//! nine with a consumer that drains them, under a different capacity
//! policy: an unbounded channel the producer can fill as fast as it likes,
//! and bounded channels of one slot in which the producer is suspended
//! until the consumer catches up. The last demonstration also recovers the
//! producer task's terminal result after the drain. Every one returns the
//! consumer's transcript, proved to be exactly the produced stream, in
//! order.

use vstd::prelude::*;

use crate::session::Supervisor;

verus! {

/// The stream the demonstration producers send: the numbers one through
/// nine, in order.
pub open spec fn nums_seq() -> Seq<i32> {
    seq![1, 2, 3, 4, 5, 6, 7, 8, 9]
}

/// Builds the script of [`nums_seq`] as a vector.
fn nums() -> (v: Vec<i32>)
    ensures
        v@ == nums_seq(),
{
    let mut v: Vec<i32> = Vec::new();
    let mut i: i32 = 1;
    while i < 10
        invariant
            1 <= i <= 10,
            v@.len() == i - 1,
            forall|k: int| 0 <= k < v@.len() ==> v@[k] == k + 1,
        decreases 10 - i,
    {
        v.push(i);
        i = i + 1;
    }
    proof {
        assert(v@ =~= nums_seq());
    }
    v
}

/// Producer and consumer over an unbounded channel: the producer pushes
/// the whole stream without ever blocking, and the consumer then drains
/// it, receiving every number in the order it was produced.
pub fn receive_nums() -> (out: Vec<i32>)
    ensures
        out@ == nums_seq(),
{
    let sup: Supervisor<i32, ()> = Supervisor::spawn(nums(), (), None);
    let (out, _done) = sup.join_after_drain();
    out
}

/// Producer and consumer over a channel with a single buffer slot: after
/// one unconsumed number the producer is suspended until the consumer
/// reads, yet the consumer still receives the whole stream in order.
pub fn receive_nums_sync() -> (out: Vec<i32>)
    ensures
        out@ == nums_seq(),
{
    let sup: Supervisor<i32, ()> = Supervisor::spawn(nums(), (), Some(1));
    let (out, _done) = sup.join_after_drain();
    out
}

/// The same single-slot channel, drained through an explicit receive loop
/// that stops at end of stream instead of consuming an iterator.
pub fn receive_nums_sync_loop() -> (out: Vec<i32>)
    ensures
        out@ == nums_seq(),
{
    let mut sup: Supervisor<i32, ()> = Supervisor::spawn(nums(), (), Some(1));
    let mut out: Vec<i32> = Vec::new();
    proof {
        assert(out@ + sup.pending_items() =~= nums_seq());
    }
    loop
        invariant
            sup.wf(),
            out@ + sup.pending_items() == nums_seq(),
        ensures
            out@ == nums_seq(),
        decreases sup.pending_items().len(),
    {
        match sup.recv() {
            Some(num) => {
                out.push(num);
                proof {
                    assert(out@ + sup.pending_items() =~= nums_seq());
                }
            },
            None => {
                proof {
                    assert(out@ =~= nums_seq());
                }
                break;
            },
        }
    }
    out
}

/// Producer and consumer over a single-slot channel where the producer
/// task also returns a terminal result: the consumer drains the whole
/// stream first, and joining then yields the error outcome the task chose
/// to report.
pub fn receive_nums_sync_with_result() -> (res: (Vec<i32>, Result<String, String>))
    ensures
        res.0@ == nums_seq(),
        res.1 matches Err(e) && e@ == "some error"@,
{
    let outcome = stream_result();
    let sup: Supervisor<i32, Result<String, String>> = Supervisor::spawn(nums(), outcome, Some(1));
    sup.join_after_drain()
}

/// The terminal result of the demonstration producer task: it reports an
/// error outcome after streaming its numbers.
fn stream_result() -> (r: Result<String, String>)
    ensures
        r matches Err(e) && e@ == "some error"@,
{
    Err(String::from_str("some error"))
}

/// Runs every demonstration in turn.
pub fn run() {
    let _unbounded = receive_nums();
    let _bounded = receive_nums_sync();
    let _looped = receive_nums_sync_loop();
    let _with_result = receive_nums_sync_with_result();
}

} // verus!
