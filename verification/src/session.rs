//! The producer supervisor and the cooperative rendezvous discipline.
//!
//! A [`Supervisor`] pairs a [`Channel`] with a scripted producer task: a
//! sequence of items the producer will send in order, and the terminal
//! result it will return once it has sent them all. The supervisor plays
//! both sides of the protocol in one thread: whenever the consumer would
//! otherwise wait, the producer is stepped instead, so a blocking receive
//! becomes a terminating loop of verified channel steps. On a rendezvous
//! channel (bound zero) an item is handed straight from the suspended
//! producer to the consumer, since no item may rest in the buffer.
//!
//! The correct protocol is drain first, join last: [`Supervisor::drain`]
//! consumes the whole stream, and [`Supervisor::join`] then yields the
//! producer's terminal result. Calling join first is the classic deadlock:
//! [`Supervisor::join_without_drain`] models it and reports the deadlock
//! instead of hanging, returning the supervisor so the caller can still
//! drain and join properly.

use vstd::prelude::*;

use crate::channel::Channel;
use crate::channel::TryRecvError;
use crate::channel::TrySendError;

verus! {

/// What joining a producer thread surfaces: the terminal result the task
/// returned, or the fact that the task was aborted by an unrecoverable
/// fault instead of returning at all. The verified supervisor only ever
/// completes; a thread runtime wrapping real tasks maps an abnormal
/// termination to `TaskPanicked`.
pub enum Joined<R> {
    /// The producer task returned this terminal result.
    Completed(R),
    /// The producer task terminated abnormally rather than returning.
    TaskPanicked,
}

/// The outcome of joining before draining. On a channel whose free space
/// cannot absorb the producer's remaining items, joining first would wait
/// forever on a producer that is itself suspended on a full buffer; the
/// supervisor reports that instead of hanging, and hands itself back so the
/// caller can recover by draining.
pub enum JoinAttempt<T, R> {
    /// The channel could absorb every remaining item, so the producer ran
    /// to completion and returned this terminal result.
    Completed(R),
    /// Joining now would deadlock: the producer is suspended on a full
    /// buffer and only draining can free it. The supervisor is returned
    /// unharmed so the caller can drain first.
    WouldDeadlock(Supervisor<T, R>),
}

/// A channel supervising one scripted producer task: the task sends the
/// items of `script` in order over `chan`, then drops its sender and
/// returns `outcome`.
pub struct Supervisor<T, R> {
    chan: Channel<T>,
    script: Vec<T>,
    finished: bool,
    outcome: R,
}

impl<T, R> Supervisor<T, R> {
    /// The items the producer has yet to send, in order.
    pub closed spec fn remaining(&self) -> Seq<T> {
        self.script@
    }

    /// Whether the producer task has returned and dropped its sender.
    pub closed spec fn producer_finished(&self) -> bool {
        self.finished
    }

    /// The terminal result the producer task returns.
    pub closed spec fn outcome_spec(&self) -> R {
        self.outcome
    }

    /// The items currently resting in the channel's buffer.
    pub closed spec fn buffered(&self) -> Seq<T> {
        self.chan.items()
    }

    /// The channel's capacity bound.
    pub closed spec fn bound(&self) -> Option<usize> {
        self.chan.bound()
    }

    /// How many items may rest in the channel's buffer, `usize::MAX`
    /// standing in for "unbounded" as in [`Channel::max_resting`].
    pub closed spec fn max_resting(&self) -> usize {
        self.chan.max_resting()
    }

    /// Everything the consumer is still owed: the buffered items followed
    /// by the unsent rest of the script.
    pub open spec fn pending_items(&self) -> Seq<T> {
        self.buffered() + self.remaining()
    }

    /// Whether the channel's free space can absorb every unsent item, so
    /// that the producer could finish without any receive happening.
    pub open spec fn fits(&self) -> bool {
        self.remaining().len() <= self.max_resting() - self.buffered().len()
    }

    /// The supervisor's invariant: the channel is well formed, and the
    /// producer holds the one sender handle until it finishes, having sent
    /// everything.
    pub closed spec fn wf(&self) -> bool {
        &&& self.chan.wf()
        &&& if self.producer_finished() {
            self.chan.live_senders() == 0 && self.remaining().len() == 0
        } else {
            self.chan.live_senders() == 1
        }
    }

    /// Whether the producer task has returned and dropped its sender.
    pub fn producer_done(&self) -> (b: bool)
        ensures
            b == self.producer_finished(),
    {
        self.finished
    }

    /// Whether the channel has closed: every sender handle is gone.
    pub closed spec fn channel_is_closed(&self) -> bool {
        self.chan.is_closed()
    }

    /// Whether the channel has closed: every sender handle is gone.
    pub fn channel_closed(&self) -> (b: bool)
        ensures
            b == self.channel_is_closed(),
    {
        self.chan.closed()
    }

    /// Creates a channel with the given capacity bound and starts a
    /// scripted producer task on it: the task will send the items of
    /// `script` in order and finally return `outcome`.
    pub fn spawn(script: Vec<T>, outcome: R, bound: Option<usize>) -> (s: Self)
        ensures
            s.wf(),
            !s.producer_finished(),
            s.remaining() == script@,
            s.buffered() == Seq::<T>::empty(),
            s.pending_items() == script@,
            s.outcome_spec() == outcome,
            s.bound() == bound,
    {
        let s = Supervisor { chan: Channel::new(bound), script, finished: false, outcome };
        proof {
            assert(s.pending_items() =~= s.remaining());
        }
        s
    }

    /// One blocking receive under the cooperative discipline: whenever the
    /// consumer would wait, the producer is stepped instead. Returns the
    /// next item of the stream, in send order; returns `None` exactly when
    /// nothing is owed any more — every sender is gone and the buffer is
    /// drained — and on every call thereafter.
    #[verifier::loop_isolation(false)]
    pub fn recv(&mut self) -> (r: Option<T>)
        requires
            old(self).wf(),
        ensures
            final(self).wf(),
            final(self).outcome_spec() == old(self).outcome_spec(),
            final(self).bound() == old(self).bound(),
            match r {
                Some(item) => {
                    &&& old(self).pending_items().len() > 0
                    &&& item == old(self).pending_items()[0]
                    &&& final(self).pending_items() == old(self).pending_items().drop_first()
                },
                None => {
                    &&& old(self).pending_items().len() == 0
                    &&& final(self).pending_items() == old(self).pending_items()
                    &&& final(self).producer_finished()
                },
            },
    {
        let ghost owed = self.pending_items();
        let ghost oc = self.outcome_spec();
        let ghost b = self.bound();
        loop
            invariant
                self.wf(),
                self.pending_items() == owed,
                self.outcome_spec() == oc,
                self.bound() == b,
            decreases
                2 * self.remaining().len() + self.buffered().len() + (
                if self.producer_finished() {
                    0int
                } else {
                    1int
                }),
        {
            match self.chan.try_recv() {
                Ok(item) => {
                    proof {
                        assert(self.pending_items() =~= owed.drop_first());
                    }
                    return Some(item);
                },
                Err(TryRecvError::Disconnected) => {
                    // Closed means the producer finished, so the whole
                    // script went out and nothing is owed.
                    return None;
                },
                Err(TryRecvError::Empty) => {
                    // The consumer would wait here; step the producer. The
                    // buffer is empty, so what is owed is the rest of the
                    // script.
                    if self.script.len() == 0 {
                        self.chan.drop_sender();
                        self.finished = true;
                    } else {
                        let item = self.script.remove(0);
                        match self.chan.try_send(item) {
                            Ok(()) => {
                                proof {
                                    assert(self.pending_items() =~= owed);
                                }
                            },
                            Err(TrySendError::Full(back)) => {
                                // Full with an empty buffer: a rendezvous
                                // bound of zero. The receive that is under
                                // way takes the item straight from the
                                // suspended producer.
                                proof {
                                    assert(self.pending_items() =~= owed.drop_first());
                                }
                                return Some(back);
                            },
                            Err(TrySendError::Disconnected(back)) => {
                                // The producer still holds a sender, so
                                // the channel cannot be closed.
                                proof {
                                    assert(false);
                                }
                                self.script.insert(0, back);
                                return None;
                            },
                        }
                    }
                },
            }
        }
    }

    /// Fully consumes the stream: receives until end of stream, returning
    /// every item the producer was still to deliver, in send order. This is
    /// the drain half of the drain-then-join protocol; afterwards the
    /// producer has finished and [`Supervisor::join`] cannot block.
    pub fn drain(&mut self) -> (out: Vec<T>)
        requires
            old(self).wf(),
        ensures
            final(self).wf(),
            final(self).producer_finished(),
            final(self).channel_is_closed(),
            final(self).pending_items().len() == 0,
            final(self).outcome_spec() == old(self).outcome_spec(),
            out@ == old(self).pending_items(),
    {
        let ghost owed = self.pending_items();
        let ghost oc = self.outcome_spec();
        let mut out: Vec<T> = Vec::new();
        proof {
            assert(out@ + self.pending_items() =~= owed);
        }
        loop
            invariant
                self.wf(),
                self.outcome_spec() == oc,
                out@ + self.pending_items() == owed,
            ensures
                self.wf(),
                self.outcome_spec() == oc,
                self.producer_finished(),
                self.pending_items().len() == 0,
                out@ == owed,
            decreases self.pending_items().len(),
        {
            match self.recv() {
                Some(item) => {
                    out.push(item);
                    proof {
                        assert(out@ + self.pending_items() =~= owed);
                    }
                },
                None => {
                    proof {
                        assert(out@ =~= owed);
                    }
                    break;
                },
            }
        }
        out
    }

    /// Retrieves the producer task's terminal result. Must follow the
    /// drain: the producer has to have finished, which draining guarantees.
    pub fn join(self) -> (r: R)
        requires
            self.producer_finished(),
        ensures
            r == self.outcome_spec(),
    {
        self.outcome
    }

    /// The whole correct protocol in one call: drain the stream, then join
    /// the producer. Yields every owed item in send order together with the
    /// exact terminal result the producer returned — whatever the capacity
    /// bound, a rendezvous bound of zero included.
    pub fn join_after_drain(self) -> (p: (Vec<T>, R))
        requires
            self.wf(),
        ensures
            p.0@ == self.pending_items(),
            p.1 == self.outcome_spec(),
    {
        let mut s = self;
        let out = s.drain();
        let result = s.join();
        (out, result)
    }

    /// Models calling join before draining: the producer runs with no
    /// consumer taking items. If the channel's free space absorbs the whole
    /// rest of the script, the producer completes and its result comes
    /// back. Otherwise joining now would deadlock — the producer suspended
    /// on a full buffer, waiting on a consumer that is itself waiting on
    /// the join — and the supervisor reports exactly that, handing itself
    /// back so the caller can drain first instead.
    pub fn join_without_drain(self) -> (r: JoinAttempt<T, R>)
        requires
            self.wf(),
        ensures
            match r {
                JoinAttempt::Completed(res) => {
                    &&& self.fits()
                    &&& res == self.outcome_spec()
                },
                JoinAttempt::WouldDeadlock(s) => {
                    &&& !self.fits()
                    &&& s.wf()
                    &&& !s.producer_finished()
                    &&& s.pending_items() == self.pending_items()
                    &&& s.outcome_spec() == self.outcome_spec()
                    &&& s.bound() == self.bound()
                },
            },
    {
        let ghost owed = self.pending_items();
        let ghost oc = self.outcome_spec();
        let ghost b = self.bound();
        let ghost could_fit = self.fits();
        let mut cur = self;
        loop
            invariant
                cur.wf(),
                cur.pending_items() == owed,
                cur.outcome_spec() == oc,
                cur.bound() == b,
                cur.fits() == could_fit,
            ensures
                cur.wf(),
                cur.pending_items() == owed,
                cur.outcome_spec() == oc,
                cur.bound() == b,
                cur.fits() == could_fit,
                !cur.producer_finished() ==> !cur.fits(),
            decreases
                2 * cur.remaining().len() + (
                if cur.producer_finished() {
                    0int
                } else {
                    1int
                }),
        {
            if cur.finished {
                break;
            }
            if cur.script.len() == 0 {
                cur.chan.drop_sender();
                cur.finished = true;
            } else {
                let item = cur.script.remove(0);
                match cur.chan.try_send(item) {
                    Ok(()) => {
                        proof {
                            assert(cur.pending_items() =~= owed);
                        }
                    },
                    Err(TrySendError::Full(back)) => {
                        // The buffer is at its bound with items still to
                        // send: only a receive could free the producer.
                        cur.script.insert(0, back);
                        proof {
                            assert(cur.pending_items() =~= owed);
                        }
                        break;
                    },
                    Err(TrySendError::Disconnected(back)) => {
                        proof {
                            assert(false);
                        }
                        cur.script.insert(0, back);
                        break;
                    },
                }
            }
        }
        if cur.finished {
            JoinAttempt::Completed(cur.outcome)
        } else {
            JoinAttempt::WouldDeadlock(cur)
        }
    }
}

} // verus!
