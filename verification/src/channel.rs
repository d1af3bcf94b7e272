//! The FIFO channel state machine.
//!
//! A `Channel<T>` models one shared channel instance, the thing both the
//! send handle and the receive handle of a runtime point at. Operations
//! never block: where a real call would suspend, the operation records the
//! suspension in the channel state and reports it, and the scheduler that
//! drives the channel retries the call once the wake condition holds.
//!
//! Every operation is pinned to a spec-level transition (`send_step`,
//! `recv_step`, `close_step`, `cancel_step`) on the ghost `ChannelModel`,
//! so that laws about sequences of operations can be stated and proved
//! purely over the model.

use vstd::prelude::*;

verus! {

/// The failures a channel operation can report.
///
/// End-of-stream on receive is not an error: a receiver that drains a closed
/// channel gets an absent value, never a failure.
#[derive(Clone, Copy, Debug, PartialEq, Eq, Structural)]
pub enum ChannelError {
    /// A negative capacity was supplied at construction.
    InvalidCapacity,
    /// A send was issued on, or a suspended send was released by, a closed
    /// channel. The value was not enqueued.
    ChannelClosed,
    /// A suspended call was aborted from outside before its wake condition
    /// held. The channel state is unchanged but for the aborted caller.
    Cancelled,
}

/// What happened to a send that was accepted by an open channel.
#[derive(Clone, Copy, Debug, PartialEq, Eq, Structural)]
pub enum SendOutcome {
    /// The value went straight into the buffer.
    Enqueued,
    /// The buffer was full: the sender is suspended, holding its value, and
    /// will be admitted in FIFO order as receives free slots.
    Suspended,
}

/// What a receive call observes.
#[derive(Clone, Copy, Debug, PartialEq, Eq, Structural)]
pub enum RecvOutcome<T> {
    /// The oldest undelivered value.
    Received(T),
    /// Nothing is available and the channel is open: the caller suspends
    /// and retries once woken by a send or a close.
    Waiting,
    /// The channel is closed and drained: the terminal, non-error result,
    /// repeatable on every further call.
    EndOfStream,
}

/// The ghost state of a channel: what the contracts and laws speak of.
#[verifier::ext_equal]
pub struct ChannelModel<T> {
    /// The capacity bound, `None` for unbounded.
    pub capacity: Option<u64>,
    /// Buffered values, oldest first: what a receive may take immediately.
    pub queued: Seq<T>,
    /// Values held by suspended senders, in FIFO order of suspension.
    pub pending: Seq<T>,
    /// Whether `close` has been called.
    pub closed: bool,
}

impl<T> ChannelModel<T> {
    /// Every value on its way to the receiver, in the order the receiver
    /// will see it: the buffer first, then the suspended senders.
    pub open spec fn stream(self) -> Seq<T> {
        self.queued + self.pending
    }

    /// Whether the buffer has a free slot.
    pub open spec fn has_space(self) -> bool {
        match self.capacity {
            Some(c) => self.queued.len() < c,
            None => true,
        }
    }

    /// The channel invariant: the buffer respects the bound, senders are
    /// suspended only while the buffer is full, and closing has released
    /// every suspended sender.
    pub open spec fn wf(self) -> bool {
        &&& (match self.capacity {
            Some(c) => self.queued.len() <= c,
            None => true,
        })
        &&& self.pending.len() > 0 ==> {
            &&& self.capacity is Some
            &&& self.queued.len() == self.capacity->0
        }
        &&& self.closed ==> self.pending.len() == 0
    }

    /// A fresh, open, empty channel with the given bound.
    pub open spec fn empty(capacity: Option<u64>) -> ChannelModel<T> {
        ChannelModel { capacity, queued: Seq::empty(), pending: Seq::empty(), closed: false }
    }
}

/// The transition a send makes: refused when closed; into the buffer while
/// there is space and no sender is already waiting; otherwise the sender
/// suspends, keeping FIFO order of suspension.
pub open spec fn send_step<T>(m: ChannelModel<T>, v: T) -> (ChannelModel<T>, Result<
    SendOutcome,
    ChannelError,
>) {
    if m.closed {
        (m, Err(ChannelError::ChannelClosed))
    } else if m.has_space() && m.pending.len() == 0 {
        (ChannelModel { queued: m.queued.push(v), ..m }, Ok(SendOutcome::Enqueued))
    } else {
        (ChannelModel { pending: m.pending.push(v), ..m }, Ok(SendOutcome::Suspended))
    }
}

/// The transition a receive makes: the oldest buffered value leaves and the
/// oldest suspended sender, if any, is admitted to the freed slot; on a
/// rendezvous channel the value is handed over directly; an open, empty
/// channel leaves the caller waiting; a closed, drained one reports
/// end-of-stream and changes nothing.
pub open spec fn recv_step<T>(m: ChannelModel<T>) -> (ChannelModel<T>, RecvOutcome<T>) {
    if m.queued.len() > 0 {
        let v = m.queued[0];
        if m.pending.len() > 0 {
            (
                ChannelModel {
                    queued: m.queued.drop_first().push(m.pending[0]),
                    pending: m.pending.drop_first(),
                    ..m
                },
                RecvOutcome::Received(v),
            )
        } else {
            (ChannelModel { queued: m.queued.drop_first(), ..m }, RecvOutcome::Received(v))
        }
    } else if m.pending.len() > 0 {
        (ChannelModel { pending: m.pending.drop_first(), ..m }, RecvOutcome::Received(m.pending[0]))
    } else if m.closed {
        (m, RecvOutcome::EndOfStream)
    } else {
        (m, RecvOutcome::Waiting)
    }
}

/// The transition a close makes: the channel is marked closed, the buffer is
/// kept for draining, and every suspended sender is released with failure;
/// the second component counts the senders so released.
pub open spec fn close_step<T>(m: ChannelModel<T>) -> (ChannelModel<T>, nat) {
    (ChannelModel { pending: Seq::empty(), closed: true, ..m }, m.pending.len())
}

/// The transition an external abort of the `i`-th suspended send makes: that
/// send alone is removed; buffer, bound and lifecycle are untouched.
pub open spec fn cancel_step<T>(m: ChannelModel<T>, i: int) -> ChannelModel<T> {
    ChannelModel { pending: m.pending.remove(i), ..m }
}

/// A FIFO channel with an optional capacity bound.
///
/// `capacity == None` means unbounded; `Some(0)` is a rendezvous channel
/// where a send completes only against a simultaneous receive; `Some(n)`
/// buffers up to `n` undelivered values.
pub struct Channel<T> {
    capacity: Option<u64>,
    queue: Vec<T>,
    pending: Vec<T>,
    closed: bool,
}

impl<T> View for Channel<T> {
    type V = ChannelModel<T>;

    closed spec fn view(&self) -> ChannelModel<T> {
        ChannelModel {
            capacity: self.capacity,
            queued: self.queue@,
            pending: self.pending@,
            closed: self.closed,
        }
    }
}

impl<T> Channel<T> {
    /// The capacity bound, `None` for unbounded.
    pub open spec fn cap(&self) -> Option<u64> {
        self@.capacity
    }

    /// The buffered values, oldest first.
    pub open spec fn queued(&self) -> Seq<T> {
        self@.queued
    }

    /// The values of suspended senders, in order of suspension.
    pub open spec fn pending_sends(&self) -> Seq<T> {
        self@.pending
    }

    /// Whether `close` has been called.
    pub open spec fn is_closed(&self) -> bool {
        self@.closed
    }

    /// Every undelivered value, in the order the receiver will see it.
    pub open spec fn stream(&self) -> Seq<T> {
        self@.stream()
    }

    /// The channel's invariant.
    pub open spec fn wf(&self) -> bool {
        self@.wf()
    }

    /// Creates an open, empty channel. A negative capacity is rejected with
    /// `InvalidCapacity`; `None` builds an unbounded channel.
    pub fn create(capacity: Option<i64>) -> (r: Result<Channel<T>, ChannelError>)
        ensures
            match r {
                Ok(ch) => {
                    &&& ch.wf()
                    &&& match capacity {
                        Some(c) => c >= 0 && ch@ == ChannelModel::<T>::empty(Some(c as u64)),
                        None => ch@ == ChannelModel::<T>::empty(None),
                    }
                },
                Err(e) => {
                    &&& e == ChannelError::InvalidCapacity
                    &&& capacity matches Some(c) && c < 0
                },
            },
    {
        let cap: Option<u64> = match capacity {
            Some(c) => {
                if c < 0 {
                    return Err(ChannelError::InvalidCapacity);
                }
                Some(c as u64)
            },
            None => None,
        };
        let ch = Channel { capacity: cap, queue: Vec::new(), pending: Vec::new(), closed: false };
        proof {
            assert(ch@ =~= ChannelModel::<T>::empty(ch@.capacity));
        }
        Ok(ch)
    }

    /// Sends a value. On a closed channel this fails with `ChannelClosed` and
    /// enqueues nothing; on an open one the value always enters the stream,
    /// either buffered at once or held by the now-suspended sender.
    pub fn send(&mut self, v: T) -> (r: Result<SendOutcome, ChannelError>)
        requires
            old(self).wf(),
        ensures
            final(self).wf(),
            final(self)@ == send_step(old(self)@, v).0,
            r == send_step(old(self)@, v).1,
    {
        if self.closed {
            return Err(ChannelError::ChannelClosed);
        }
        let space = match self.capacity {
            Some(c) => (self.queue.len() as u64) < c,
            None => true,
        };
        if space && self.pending.len() == 0 {
            self.queue.push(v);
            proof {
                assert(self@ =~= send_step(old(self)@, v).0);
            }
            Ok(SendOutcome::Enqueued)
        } else {
            self.pending.push(v);
            proof {
                assert(self@ =~= send_step(old(self)@, v).0);
            }
            Ok(SendOutcome::Suspended)
        }
    }

    /// Receives the oldest undelivered value, admitting the oldest suspended
    /// sender to the freed slot; reports `Waiting` on an open, empty channel
    /// and `EndOfStream`, repeatably, on a closed, drained one.
    pub fn receive(&mut self) -> (r: RecvOutcome<T>)
        requires
            old(self).wf(),
        ensures
            final(self).wf(),
            final(self)@ == recv_step(old(self)@).0,
            r == recv_step(old(self)@).1,
    {
        if self.queue.len() > 0 {
            let v = self.queue.remove(0);
            if self.pending.len() > 0 {
                let admitted = self.pending.remove(0);
                self.queue.push(admitted);
            }
            proof {
                assert(self@ =~= recv_step(old(self)@).0);
            }
            RecvOutcome::Received(v)
        } else if self.pending.len() > 0 {
            let v = self.pending.remove(0);
            proof {
                assert(self@ =~= recv_step(old(self)@).0);
            }
            RecvOutcome::Received(v)
        } else if self.closed {
            RecvOutcome::EndOfStream
        } else {
            RecvOutcome::Waiting
        }
    }

    /// Closes the channel: buffered values stay receivable, every suspended
    /// sender is released with `ChannelClosed`, and the count of senders so
    /// released is returned.
    pub fn close(&mut self) -> (refused: usize)
        requires
            old(self).wf(),
        ensures
            final(self).wf(),
            final(self)@ == close_step(old(self)@).0,
            refused == close_step(old(self)@).1,
    {
        self.closed = true;
        let refused = self.pending.len();
        self.pending.clear();
        proof {
            assert(self@ =~= close_step(old(self)@).0);
        }
        refused
    }

    /// Aborts the `i`-th suspended send from outside and returns the error
    /// that the aborted sender observes. No other part of the state moves:
    /// the abort corrupts nothing.
    pub fn cancel_send(&mut self, i: usize) -> (r: ChannelError)
        requires
            old(self).wf(),
            i < old(self).pending_sends().len(),
        ensures
            final(self).wf(),
            final(self)@ == cancel_step(old(self)@, i as int),
            r == ChannelError::Cancelled,
    {
        self.pending.remove(i);
        proof {
            assert(self@ =~= cancel_step(old(self)@, i as int));
        }
        ChannelError::Cancelled
    }
}

} // verus!
