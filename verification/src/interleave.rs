//! Two producers sharing one channel.
//!
//! When two sender clones feed the same channel from different threads, the
//! consumer sees some interleaving of the two streams: the relative order
//! across producers is whatever order their sends happened to complete, and
//! no fairness is promised. What is promised is that each producer's items
//! stay in that producer's own send order, and that every item sent by
//! either producer reaches the consumer exactly once.
//!
//! [`run_two_producers`] plays such a pair of scripted producers under the
//! cooperative discipline, with an arbitrary schedule standing in for the
//! scheduler's choices, and its contract states exactly that guarantee:
//! projecting the consumer's stream onto either producer recovers that
//! producer's script, and nothing else arrives.

use vstd::prelude::*;

use crate::channel::Channel;
use crate::channel::TryRecvError;
use crate::channel::TrySendError;

verus! {

/// The subsequence of `s` contributed by the producer tagged `tag`, in
/// stream order, with the tags stripped.
pub open spec fn project<T>(s: Seq<(bool, T)>, tag: bool) -> Seq<T>
    decreases s.len(),
{
    if s.len() == 0 {
        Seq::empty()
    } else if s.last().0 == tag {
        project(s.drop_last(), tag).push(s.last().1)
    } else {
        project(s.drop_last(), tag)
    }
}

/// Appending one tagged item to a stream appends it to its own producer's
/// projection and leaves the other producer's projection unchanged.
pub proof fn lemma_project_push<T>(s: Seq<(bool, T)>, p: (bool, T), tag: bool)
    ensures
        project(s.push(p), tag) == if p.0 == tag {
            project(s, tag).push(p.1)
        } else {
            project(s, tag)
        },
{
    assert(s.push(p).drop_last() =~= s);
}

/// One scheduling step of the producer tagged `tag`: finish if the script
/// is exhausted, otherwise send the script's next item, letting the
/// consumer take one item first when the buffer is at its bound (straight
/// from the producer's hand on a rendezvous). `out` collects what the
/// consumer has received so far; the stream so far — received items
/// followed by the buffered ones — either stays put or grows by exactly
/// this producer's next item.
fn step_producer<T>(
    chan: &mut Channel<(bool, T)>,
    script: &mut Vec<T>,
    done: &mut bool,
    out: &mut Vec<(bool, T)>,
    tag: bool,
)
    requires
        old(chan).wf(),
        old(chan).live_senders() >= 1,
        !*old(done),
    ensures
        final(chan).wf(),
        final(chan).bound() == old(chan).bound(),
        final(chan).live_senders() == old(chan).live_senders() - (
        if *final(done) {
            1int
        } else {
            0int
        }),
        final(chan).is_closed() == (final(chan).live_senders() == 0),
        *final(done) ==> {
            &&& old(script)@.len() == 0
            &&& final(script)@ == old(script)@
            &&& final(out)@ + final(chan).items() == old(out)@ + old(chan).items()
        },
        !*final(done) ==> {
            ||| {
                &&& old(script)@.len() > 0
                &&& final(script)@ == old(script)@.drop_first()
                &&& final(out)@ + final(chan).items() == (old(out)@ + old(chan).items()).push(
                    (tag, old(script)@[0]),
                )
            }
            ||| {
                &&& final(script)@ == old(script)@
                &&& final(out)@ + final(chan).items() == old(out)@ + old(chan).items()
                &&& final(chan).items().len() < old(chan).items().len()
            }
        },
        2 * final(script)@.len() + final(chan).items().len() + (
        if *final(done) {
            0int
        } else {
            1int
        }) < 2 * old(script)@.len() + old(chan).items().len() + 1,
{
    if script.len() == 0 {
        chan.drop_sender();
        *done = true;
        proof {
            assert(out@ + chan.items() =~= old(out)@ + old(chan).items());
        }
    } else {
        let ghost script_before = script@;
        let item = script.remove(0);
        match chan.try_send((tag, item)) {
            Ok(()) => {
                proof {
                    assert(out@ + chan.items() =~= (old(out)@ + old(chan).items()).push(
                        (tag, script_before[0]),
                    ));
                }
            },
            Err(TrySendError::Full(back)) => {
                // The buffer is at its bound: the consumer takes one item
                // before this producer can go on.
                match chan.try_recv() {
                    Ok(received) => {
                        out.push(received);
                        let (_, held) = back;
                        script.insert(0, held);
                        proof {
                            assert(script@ =~= script_before);
                            assert(out@ + chan.items() =~= old(out)@ + old(chan).items());
                        }
                    },
                    Err(TryRecvError::Empty) => {
                        // Full with an empty buffer is a rendezvous bound
                        // of zero: the item passes straight from producer
                        // to consumer without resting.
                        out.push(back);
                        proof {
                            assert(out@ + chan.items() =~= (old(out)@ + old(chan).items()).push(
                                (tag, script_before[0]),
                            ));
                        }
                    },
                    Err(TryRecvError::Disconnected) => {
                        // A sender is live, so the channel is not closed.
                        proof {
                            assert(false);
                        }
                        let (_, held) = back;
                        script.insert(0, held);
                    },
                }
            },
            Err(TrySendError::Disconnected(back)) => {
                proof {
                    assert(false);
                }
                let (_, held) = back;
                script.insert(0, held);
            },
        }
    }
}

/// Runs two scripted producers over one channel of the given capacity
/// bound, interleaved by `schedule` (`false` picks the first producer,
/// `true` the second; once the schedule runs out, or names a finished
/// producer, the other one runs). The consumer's stream contains each
/// producer's items exactly once and in that producer's own send order —
/// whatever the schedule and the bound.
pub fn run_two_producers<T>(
    script_a: Vec<T>,
    script_b: Vec<T>,
    bound: Option<usize>,
    schedule: Vec<bool>,
) -> (out: Vec<(bool, T)>)
    ensures
        project(out@, false) == script_a@,
        project(out@, true) == script_b@,
        out@.len() == script_a@.len() + script_b@.len(),
{
    let ghost orig_a = script_a@;
    let ghost orig_b = script_b@;
    let mut rest_a = script_a;
    let mut rest_b = script_b;
    let mut chan: Channel<(bool, T)> = Channel::new(bound);
    chan.clone_sender();
    let mut done_a: bool = false;
    let mut done_b: bool = false;
    let mut turn: usize = 0;
    let mut out: Vec<(bool, T)> = Vec::new();
    proof {
        assert(project(out@ + chan.items(), false) =~= Seq::<T>::empty());
        assert(project(out@ + chan.items(), true) =~= Seq::<T>::empty());
        assert(project(out@ + chan.items(), false) + rest_a@ =~= orig_a);
        assert(project(out@ + chan.items(), true) + rest_b@ =~= orig_b);
    }
    loop
        invariant
            chan.wf(),
            chan.bound() == bound,
            done_a ==> rest_a@.len() == 0,
            done_b ==> rest_b@.len() == 0,
            chan.live_senders() == (
            if done_a {
                0int
            } else {
                1int
            }) + (
            if done_b {
                0int
            } else {
                1int
            }),
            turn <= schedule.len(),
            project(out@ + chan.items(), false) + rest_a@ == orig_a,
            project(out@ + chan.items(), true) + rest_b@ == orig_b,
            out@.len() + chan.items().len() + rest_a@.len() + rest_b@.len() == orig_a.len()
                + orig_b.len(),
        ensures
            done_a && done_b,
            chan.items().len() == 0,
            project(out@, false) == orig_a,
            project(out@, true) == orig_b,
            out@.len() == orig_a.len() + orig_b.len(),
        decreases
            2 * rest_a@.len() + 2 * rest_b@.len() + chan.items().len() + (
            if done_a {
                0int
            } else {
                1int
            }) + (
            if done_b {
                0int
            } else {
                1int
            }),
    {
        if done_a && done_b {
            let ghost s_before = out@ + chan.items();
            match chan.try_recv() {
                Ok(received) => {
                    out.push(received);
                    proof {
                        assert(out@ + chan.items() =~= s_before);
                    }
                },
                Err(TryRecvError::Disconnected) => {
                    proof {
                        assert(out@ + chan.items() =~= out@);
                        assert(project(out@, false) + Seq::<T>::empty() =~= project(out@, false));
                        assert(project(out@, true) + Seq::<T>::empty() =~= project(out@, true));
                    }
                    break;
                },
                Err(TryRecvError::Empty) => {
                    // Both senders are gone, so the channel is closed and
                    // an empty buffer reports end of stream instead.
                    proof {
                        assert(false);
                    }
                    break;
                },
            }
        } else {
            let mut pick_b: bool;
            if done_a {
                pick_b = true;
            } else if done_b {
                pick_b = false;
            } else if turn < schedule.len() {
                pick_b = schedule[turn];
                turn = turn + 1;
            } else {
                pick_b = false;
            }
            let ghost s_before = out@ + chan.items();
            if pick_b {
                let ghost rb_before = rest_b@;
                step_producer(&mut chan, &mut rest_b, &mut done_b, &mut out, true);
                proof {
                    if rest_b@.len() < rb_before.len() {
                        let p = (true, rb_before[0]);
                        lemma_project_push(s_before, p, false);
                        lemma_project_push(s_before, p, true);
                        assert(project(out@ + chan.items(), true) + rest_b@ =~= orig_b);
                    }
                }
            } else {
                let ghost ra_before = rest_a@;
                step_producer(&mut chan, &mut rest_a, &mut done_a, &mut out, false);
                proof {
                    if rest_a@.len() < ra_before.len() {
                        let p = (false, ra_before[0]);
                        lemma_project_push(s_before, p, false);
                        lemma_project_push(s_before, p, true);
                        assert(project(out@ + chan.items(), false) + rest_a@ =~= orig_a);
                    }
                }
            }
        }
    }
    out
}

} // verus!
