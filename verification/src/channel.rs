//! The shared queue core of the handoff channel.
//!
//! A [`Channel`] owns an ordered buffer of items, a capacity policy, a count
//! of live sender handles and a closed flag. Insertion order equals
//! consumption order (FIFO). A capacity bound of `Some(n)` lets at most `n`
//! items rest in the buffer; `Some(0)` is a rendezvous channel in which no
//! item may rest at all; `None` never refuses an item. The channel closes
//! exactly when the last live sender is dropped, and once closed it never
//! reopens.
//!
//! Every operation here is a single non-blocking atomic step. Blocking
//! behaviour (suspending a producer on a full buffer, a consumer on an empty
//! one) is built from these steps by a scheduler or a thread runtime that
//! retries the step once the state has changed; the [`crate::session`]
//! module does so cooperatively and is verified end to end.

use vstd::prelude::*;

verus! {

/// Error reported by [`Channel::try_send`]. The refused item is handed back
/// to the caller so that it can be retried once the state has changed.
#[derive(Debug)]
pub enum TrySendError<T> {
    /// The buffer is at its capacity bound and the caller opted out of
    /// blocking.
    Full(T),
    /// No receiver counterpart remains reachable: the channel is closed.
    Disconnected(T),
}

/// Error reported by [`Channel::try_recv`].
#[derive(Debug, PartialEq, Eq, Structural)]
pub enum TryRecvError {
    /// No item is immediately available and the channel is still open.
    Empty,
    /// The channel is closed and drained: end of stream.
    Disconnected,
}

/// The lifecycle phase of a channel, in the order the phases are reached.
/// A channel is `Open` while a sender is live, `Draining` once every sender
/// is gone but items remain buffered, and `Closed` once it is drained and no sender remains.
/// The order is monotonic: no operation of the channel moves it back to an
/// earlier phase.
#[derive(Debug, PartialEq, Eq, Structural)]
pub enum Phase {
    /// At least one sender handle is live; the channel is not closed.
    Open,
    /// No sender is live and the buffer still holds items.
    Draining,
    /// No sender is live and the buffer is empty: every receive from now on
    /// reports end of stream.
    Closed,
}

/// The shared queue core: a FIFO buffer, its capacity policy, the count of
/// live sender handles, and the closed flag.
pub struct Channel<T> {
    buf: Vec<T>,
    bound: Option<usize>,
    senders: usize,
    closed: bool,
}

impl<T> Channel<T> {
    /// The ordered sequence of buffered items: oldest first.
    pub closed spec fn items(&self) -> Seq<T> {
        self.buf@
    }

    /// The capacity policy: `None` is unbounded, `Some(n)` lets at most `n`
    /// items rest in the buffer.
    pub closed spec fn bound(&self) -> Option<usize> {
        self.bound
    }

    /// How many sender handles are live.
    pub closed spec fn live_senders(&self) -> nat {
        self.senders as nat
    }

    /// Whether the channel is closed. A closed channel accepts no further
    /// items; buffered items can still be drained.
    pub closed spec fn is_closed(&self) -> bool {
        self.closed
    }

    /// The channel's invariant: the closed flag is set exactly when no
    /// sender is live, and the buffer never exceeds its capacity bound.
    pub open spec fn wf(&self) -> bool {
        &&& self.is_closed() <==> self.live_senders() == 0
        &&& self.items().len() <= self.max_resting()
    }

    /// How many items may rest in the buffer under the capacity policy
    /// (`usize::MAX` standing in for "unbounded", which the buffer can never
    /// exceed anyway).
    pub open spec fn max_resting(&self) -> usize {
        match self.bound() {
            Some(n) => n,
            None => usize::MAX,
        }
    }

    /// Whether the buffer is at its capacity bound, so that a send must
    /// either refuse the item or suspend until the consumer frees space.
    pub open spec fn at_capacity(&self) -> bool {
        self.items().len() == self.max_resting()
    }

    /// The lifecycle phase: `Open` until the last sender is dropped,
    /// `Draining` while buffered items outlive the senders, `Closed` once the
    /// channel is closed and empty.
    pub open spec fn phase(&self) -> Phase {
        if !self.is_closed() {
            Phase::Open
        } else if self.items().len() > 0 {
            Phase::Draining
        } else {
            Phase::Closed
        }
    }

    /// Creates a channel with the given capacity bound and one live sender.
    pub fn new(bound: Option<usize>) -> (c: Self)
        ensures
            c.wf(),
            c.items() == Seq::<T>::empty(),
            c.bound() == bound,
            c.live_senders() == 1,
            !c.is_closed(),
    {
        Channel { buf: Vec::new(), bound, senders: 1, closed: false }
    }

    /// Appends `item` to the buffer if the channel is open and below its
    /// capacity bound; otherwise refuses it and hands it back unchanged.
    /// A blocking send retries a `Full` refusal once the consumer has freed
    /// space; it can never retry past `Disconnected`.
    pub fn try_send(&mut self, item: T) -> (r: Result<(), TrySendError<T>>)
        requires
            old(self).wf(),
        ensures
            final(self).wf(),
            final(self).bound() == old(self).bound(),
            final(self).live_senders() == old(self).live_senders(),
            final(self).is_closed() == old(self).is_closed(),
            match r {
                Ok(()) => {
                    &&& !old(self).is_closed()
                    &&& !old(self).at_capacity()
                    &&& final(self).items() == old(self).items().push(item)
                },
                Err(TrySendError::Disconnected(back)) => {
                    &&& old(self).is_closed()
                    &&& back == item
                    &&& final(self).items() == old(self).items()
                },
                Err(TrySendError::Full(back)) => {
                    &&& !old(self).is_closed()
                    &&& old(self).at_capacity()
                    &&& back == item
                    &&& final(self).items() == old(self).items()
                },
            },
    {
        if self.closed {
            return Err(TrySendError::Disconnected(item));
        }
        let full = match self.bound {
            Some(n) => self.buf.len() == n,
            None => self.buf.len() == usize::MAX,
        };
        if full {
            Err(TrySendError::Full(item))
        } else {
            self.buf.push(item);
            Ok(())
        }
    }

    /// Removes and returns the oldest buffered item. When the buffer is
    /// empty the result tells the caller whether waiting could help:
    /// `Empty` while a sender is still live, `Disconnected` once the stream
    /// has ended for good.
    pub fn try_recv(&mut self) -> (r: Result<T, TryRecvError>)
        requires
            old(self).wf(),
        ensures
            final(self).wf(),
            final(self).bound() == old(self).bound(),
            final(self).live_senders() == old(self).live_senders(),
            final(self).is_closed() == old(self).is_closed(),
            match r {
                Ok(item) => {
                    &&& old(self).items().len() > 0
                    &&& item == old(self).items()[0]
                    &&& final(self).items() == old(self).items().drop_first()
                },
                Err(TryRecvError::Empty) => {
                    &&& old(self).items().len() == 0
                    &&& !old(self).is_closed()
                    &&& final(self).items() == old(self).items()
                },
                Err(TryRecvError::Disconnected) => {
                    &&& old(self).items().len() == 0
                    &&& old(self).is_closed()
                    &&& final(self).items() == old(self).items()
                },
            },
    {
        if self.buf.len() > 0 {
            Ok(self.buf.remove(0))
        } else if self.closed {
            Err(TryRecvError::Disconnected)
        } else {
            Err(TryRecvError::Empty)
        }
    }

    /// Registers one more live sender, as cloning a sender handle does.
    pub fn clone_sender(&mut self)
        requires
            old(self).wf(),
            old(self).live_senders() >= 1,
            old(self).live_senders() < usize::MAX,
        ensures
            final(self).wf(),
            final(self).bound() == old(self).bound(),
            final(self).items() == old(self).items(),
            final(self).live_senders() == old(self).live_senders() + 1,
            !final(self).is_closed(),
    {
        self.senders = self.senders + 1;
    }

    /// Unregisters one live sender, as dropping a sender handle does. When
    /// the last sender goes, the channel closes; buffered items stay for the
    /// consumer to drain.
    pub fn drop_sender(&mut self)
        requires
            old(self).wf(),
            old(self).live_senders() >= 1,
        ensures
            final(self).wf(),
            final(self).bound() == old(self).bound(),
            final(self).items() == old(self).items(),
            final(self).live_senders() == old(self).live_senders() - 1,
            final(self).is_closed() <==> old(self).live_senders() == 1,
    {
        self.senders = self.senders - 1;
        if self.senders == 0 {
            self.closed = true;
        }
    }

    /// Closes the channel outright, discarding every live sender.
    /// Idempotent: closing a closed channel changes nothing. Buffered items
    /// stay for the consumer to drain.
    pub fn close(&mut self)
        requires
            old(self).wf(),
        ensures
            final(self).wf(),
            final(self).bound() == old(self).bound(),
            final(self).items() == old(self).items(),
            final(self).live_senders() == 0,
            final(self).is_closed(),
    {
        self.senders = 0;
        self.closed = true;
    }

    /// How many items rest in the buffer.
    pub fn len(&self) -> (n: usize)
        ensures
            n == self.items().len(),
    {
        self.buf.len()
    }

    /// Whether the buffer holds no items.
    pub fn is_empty(&self) -> (b: bool)
        ensures
            b == (self.items().len() == 0),
    {
        self.buf.len() == 0
    }

    /// Whether the channel is closed.
    pub fn closed(&self) -> (b: bool)
        ensures
            b == self.is_closed(),
    {
        self.closed
    }

    /// The capacity bound the channel was created with.
    pub fn capacity(&self) -> (c: Option<usize>)
        ensures
            c == self.bound(),
    {
        self.bound
    }

    /// How many sender handles are live.
    pub fn sender_count(&self) -> (n: usize)
        ensures
            n == self.live_senders(),
    {
        self.senders
    }

    /// The lifecycle phase the channel is in.
    pub fn current_phase(&self) -> (p: Phase)
        ensures
            p == self.phase(),
    {
        if !self.closed {
            Phase::Open
        } else if self.buf.len() > 0 {
            Phase::Draining
        } else {
            Phase::Closed
        }
    }
}

/// Close-on-drop, as an invariant of the channel itself: whenever the last
/// sender handle has been dropped, the channel is closed — a receiver can
/// never wait forever on a channel nobody can feed.
pub proof fn lemma_no_senders_means_closed<T>(c: Channel<T>)
    requires
        c.wf(),
        c.live_senders() == 0,
    ensures
        c.is_closed(),
{
}

/// Backpressure, as a fact about the capacity policy: a bounded channel
/// holding as many items as its bound refuses the next non-blocking send,
/// and only a receive can change that. In particular a rendezvous channel
/// (bound zero) never lets an item rest in the buffer.
pub proof fn lemma_bounded_channel_refuses_excess<T>(c: Channel<T>, n: usize)
    requires
        c.wf(),
        c.bound() == Some(n),
        c.items().len() == n,
    ensures
        c.at_capacity(),
        n == 0 ==> c.items().len() == 0,
{
}

} // verus!
