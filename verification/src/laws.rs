//! The laws of the channel: properties of whole runs of operations, proved
//! over the ghost `ChannelModel` transitions that every executable operation
//! is pinned to.

use vstd::prelude::*;

use crate::channel::ChannelModel;
use crate::channel::ChannelError;
use crate::channel::SendOutcome;
use crate::channel::RecvOutcome;
use crate::channel::send_step;
use crate::channel::recv_step;
use crate::channel::close_step;

verus! {

/// The state after sending each value of `vs`, oldest first.
pub open spec fn send_all<T>(m: ChannelModel<T>, vs: Seq<T>) -> ChannelModel<T>
    decreases vs.len(),
{
    if vs.len() == 0 {
        m
    } else {
        send_all(send_step(m, vs[0]).0, vs.drop_first())
    }
}

/// The state after `n` consecutive receives.
pub open spec fn recv_state<T>(m: ChannelModel<T>, n: nat) -> ChannelModel<T>
    decreases n,
{
    if n == 0 {
        m
    } else {
        recv_state(recv_step(m).0, (n - 1) as nat)
    }
}

/// The values that `n` consecutive receives deliver, in order. A receive
/// that delivers nothing ends the collection.
pub open spec fn recv_values<T>(m: ChannelModel<T>, n: nat) -> Seq<T>
    decreases n,
{
    if n == 0 {
        Seq::empty()
    } else {
        match recv_step(m).1 {
            RecvOutcome::Received(v) => seq![v] + recv_values(recv_step(m).0, (n - 1) as nat),
            RecvOutcome::Waiting => Seq::empty(),
            RecvOutcome::EndOfStream => Seq::empty(),
        }
    }
}

/// What one send does: on a closed channel it fails and moves nothing; on an
/// open one it is accepted, appends its value to the stream, and is buffered
/// exactly when there is space and no sender is already suspended.
pub proof fn lemma_send_step<T>(m: ChannelModel<T>, v: T)
    requires
        m.wf(),
    ensures
        send_step(m, v).0.wf(),
        send_step(m, v).0.capacity == m.capacity,
        send_step(m, v).0.closed == m.closed,
        m.closed ==> send_step(m, v).0 == m && send_step(m, v).1 == Err::<
            SendOutcome,
            ChannelError,
        >(ChannelError::ChannelClosed),
        !m.closed ==> {
            &&& send_step(m, v).0.stream() == m.stream().push(v)
            &&& send_step(m, v).1 is Ok
            &&& (send_step(m, v).1 == Ok::<SendOutcome, ChannelError>(SendOutcome::Enqueued)
                <==> m.has_space() && m.pending.len() == 0)
        },
{
    if !m.closed {
        if m.has_space() && m.pending.len() == 0 {
            assert(send_step(m, v).0.stream() =~= m.stream().push(v));
        } else {
            assert(send_step(m, v).0.stream() =~= m.stream().push(v));
        }
    }
}

/// What one receive does: it delivers the head of the stream and drops it,
/// or, on an empty stream, reports end-of-stream (closed) or leaves the
/// caller waiting (open), changing nothing.
pub proof fn lemma_recv_step<T>(m: ChannelModel<T>)
    requires
        m.wf(),
    ensures
        recv_step(m).0.wf(),
        recv_step(m).0.capacity == m.capacity,
        recv_step(m).0.closed == m.closed,
        m.stream().len() > 0 ==> {
            &&& recv_step(m).1 == RecvOutcome::Received(m.stream()[0])
            &&& recv_step(m).0.stream() == m.stream().drop_first()
        },
        m.stream().len() == 0 ==> {
            &&& recv_step(m).0 == m
            &&& (m.closed ==> recv_step(m).1 == RecvOutcome::<T>::EndOfStream)
            &&& (!m.closed ==> recv_step(m).1 == RecvOutcome::<T>::Waiting)
        },
{
    if m.stream().len() > 0 {
        if m.queued.len() > 0 {
            assert(m.stream()[0] == m.queued[0]);
            assert(recv_step(m).0.stream() =~= m.stream().drop_first());
        } else {
            assert(m.stream()[0] == m.pending[0]);
            assert(recv_step(m).0.stream() =~= m.stream().drop_first());
        }
    }
}

/// What close does: the channel is closed, the buffer is kept, and every
/// suspended sender is released; the count of released senders is reported.
pub proof fn lemma_close_step<T>(m: ChannelModel<T>)
    requires
        m.wf(),
    ensures
        close_step(m).0.wf(),
        close_step(m).0.closed,
        close_step(m).0.capacity == m.capacity,
        close_step(m).0.stream() == m.queued,
        close_step(m).1 == m.pending.len(),
{
    assert(close_step(m).0.stream() =~= m.queued);
}

/// Sending a whole sequence into an open channel keeps it open and
/// well-formed and appends exactly that sequence to the stream: nothing is
/// reordered, duplicated or dropped.
pub proof fn lemma_send_all<T>(m: ChannelModel<T>, vs: Seq<T>)
    requires
        m.wf(),
        !m.closed,
    ensures
        send_all(m, vs).wf(),
        !send_all(m, vs).closed,
        send_all(m, vs).capacity == m.capacity,
        send_all(m, vs).stream() == m.stream() + vs,
    decreases vs.len(),
{
    if vs.len() == 0 {
        assert(m.stream() + vs =~= m.stream());
    } else {
        lemma_send_step(m, vs[0]);
        lemma_send_all(send_step(m, vs[0]).0, vs.drop_first());
        assert(m.stream().push(vs[0]) + vs.drop_first() =~= m.stream() + vs);
    }
}

/// Sending a sequence that fits entirely within the free buffer space of a
/// channel with no suspended senders buffers every value at once: no sender
/// suspends.
pub proof fn lemma_send_all_buffered<T>(m: ChannelModel<T>, vs: Seq<T>)
    requires
        m.wf(),
        !m.closed,
        m.pending.len() == 0,
        match m.capacity {
            Some(c) => m.queued.len() + vs.len() <= c,
            None => true,
        },
    ensures
        send_all(m, vs).wf(),
        !send_all(m, vs).closed,
        send_all(m, vs).capacity == m.capacity,
        send_all(m, vs).queued == m.queued + vs,
        send_all(m, vs).pending == m.pending,
    decreases vs.len(),
{
    if vs.len() == 0 {
        assert(m.queued + vs =~= m.queued);
    } else {
        lemma_send_step(m, vs[0]);
        lemma_send_all_buffered(send_step(m, vs[0]).0, vs.drop_first());
        assert(m.queued.push(vs[0]) + vs.drop_first() =~= m.queued + vs);
    }
}

/// Receiving `n` values from a stream at least `n` long delivers exactly the
/// first `n` stream values, in stream order, and leaves the rest.
pub proof fn lemma_recv_in_order<T>(m: ChannelModel<T>, n: nat)
    requires
        m.wf(),
        n <= m.stream().len(),
    ensures
        recv_values(m, n) == m.stream().take(n as int),
        recv_state(m, n).wf(),
        recv_state(m, n).capacity == m.capacity,
        recv_state(m, n).closed == m.closed,
        recv_state(m, n).stream() == m.stream().skip(n as int),
    decreases n,
{
    if n == 0 {
        assert(recv_values(m, n) =~= m.stream().take(0));
        assert(m.stream().skip(0) =~= m.stream());
    } else {
        lemma_recv_step(m);
        let m1 = recv_step(m).0;
        lemma_recv_in_order(m1, (n - 1) as nat);
        assert(seq![m.stream()[0]] + m.stream().drop_first().take(n - 1) =~= m.stream().take(
            n as int,
        ));
        assert(m.stream().drop_first().skip(n - 1) =~= m.stream().skip(n as int));
    }
}

/// FIFO law: for every sequence of sends `vs` completed on an open, empty
/// channel before any receive, the values delivered by `vs.len()`
/// consecutive receives are exactly `vs`, in send order.
pub proof fn lemma_fifo<T>(m: ChannelModel<T>, vs: Seq<T>)
    requires
        m.wf(),
        !m.closed,
        m.stream().len() == 0,
    ensures
        recv_values(send_all(m, vs), vs.len()) == vs,
{
    lemma_send_all(m, vs);
    assert(send_all(m, vs).stream() =~= vs);
    lemma_recv_in_order(send_all(m, vs), vs.len());
    assert(vs.take(vs.len() as int) =~= vs);
}

/// Bounded backpressure law: on an empty channel of capacity `c`, the first
/// `c` sends are buffered, the `(c+1)`-th suspends rather than succeeding or
/// dropping its value, and the first receive delivers the oldest value and
/// admits the suspended sender, after which no sender waits.
pub proof fn lemma_bounded_backpressure<T>(m: ChannelModel<T>, vs: Seq<T>, c: u64)
    requires
        m.wf(),
        !m.closed,
        m.capacity == Some(c),
        m.stream().len() == 0,
        vs.len() == c + 1,
    ensures
        ({
            let full = send_all(m, vs.take(c as int));
            let after = send_step(full, vs[c as int]);
            &&& full.pending.len() == 0
            &&& after.1 == Ok::<SendOutcome, ChannelError>(SendOutcome::Suspended)
            &&& after.0.stream() == vs
            &&& recv_step(after.0).1 == RecvOutcome::Received(vs[0])
            &&& recv_step(after.0).0.stream() == vs.drop_first()
            &&& recv_step(after.0).0.pending.len() == 0
        }),
{
    lemma_send_all_buffered(m, vs.take(c as int));
    let full = send_all(m, vs.take(c as int));
    assert(full.queued =~= vs.take(c as int));
    lemma_send_step(full, vs[c as int]);
    let after = send_step(full, vs[c as int]).0;
    assert(after.stream() =~= vs.take(c as int) + seq![vs[c as int]]);
    assert(after.stream() =~= vs);
    lemma_recv_step(after);
    assert(vs[0] == after.stream()[0]);
    assert(recv_step(after).0.stream() =~= vs.drop_first());
    assert(recv_step(after).0.pending =~= Seq::<T>::empty());
}

/// End-of-stream is repeatable: a receive on a closed, drained channel
/// reports end-of-stream and changes nothing, so every further receive does
/// the same.
pub proof fn lemma_end_of_stream<T>(m: ChannelModel<T>)
    requires
        m.wf(),
        m.closed,
        m.stream().len() == 0,
    ensures
        recv_step(m).0 == m,
        recv_step(m).1 == RecvOutcome::<T>::EndOfStream,
{
}

/// Close/drain law: after `close`, the buffered values remain receivable in
/// order; once the receiver has drained them all, every subsequent receive
/// reports end-of-stream and leaves the channel unchanged.
pub proof fn lemma_close_drain<T>(m: ChannelModel<T>)
    requires
        m.wf(),
    ensures
        ({
            let closed = close_step(m).0;
            let drained = recv_state(closed, m.queued.len());
            &&& closed.stream() == m.queued
            &&& recv_values(closed, m.queued.len()) == m.queued
            &&& recv_step(drained).0 == drained
            &&& recv_step(drained).1 == RecvOutcome::<T>::EndOfStream
        }),
{
    lemma_close_step(m);
    let closed = close_step(m).0;
    lemma_recv_in_order(closed, m.queued.len());
    assert(closed.stream().take(m.queued.len() as int) =~= m.queued);
    let drained = recv_state(closed, m.queued.len());
    assert(drained.stream() =~= closed.stream().skip(m.queued.len() as int));
    lemma_end_of_stream(drained);
}

/// Closed-send law: any send issued after `close` fails with `ChannelClosed`
/// and enqueues nothing.
pub proof fn lemma_closed_send<T>(m: ChannelModel<T>, v: T)
    requires
        m.closed,
    ensures
        send_step(m, v).0 == m,
        send_step(m, v).1 == Err::<SendOutcome, ChannelError>(ChannelError::ChannelClosed),
{
}

/// One send or receive, for stating laws over whole runs.
pub enum ChannelOp<T> {
    Send(T),
    Recv,
}

/// The state after a run of operations, with the values of the accepted
/// sends and the values delivered to the receiver, each in the order the
/// operations happened.
pub open spec fn run<T>(m: ChannelModel<T>, ops: Seq<ChannelOp<T>>) -> (
    ChannelModel<T>,
    Seq<T>,
    Seq<T>,
)
    decreases ops.len(),
{
    if ops.len() == 0 {
        (m, Seq::empty(), Seq::empty())
    } else {
        match ops[0] {
            ChannelOp::Send(v) => {
                let rest = run(send_step(m, v).0, ops.drop_first());
                if send_step(m, v).1 is Ok {
                    (rest.0, seq![v] + rest.1, rest.2)
                } else {
                    rest
                }
            },
            ChannelOp::Recv => {
                let rest = run(recv_step(m).0, ops.drop_first());
                match recv_step(m).1 {
                    RecvOutcome::Received(v) => (rest.0, rest.1, seq![v] + rest.2),
                    RecvOutcome::Waiting => rest,
                    RecvOutcome::EndOfStream => rest,
                }
            },
        }
    }
}

/// FIFO under interleaving: over any run of sends and receives, however the
/// two sides interleave, the delivered values followed by the values still
/// undelivered equal the initial stream followed by the accepted sends.
/// Delivery order is send order, and no value is duplicated, reordered or
/// dropped along the way.
pub proof fn lemma_fifo_interleaved<T>(m: ChannelModel<T>, ops: Seq<ChannelOp<T>>)
    requires
        m.wf(),
    ensures
        run(m, ops).0.wf(),
        run(m, ops).2 + run(m, ops).0.stream() == m.stream() + run(m, ops).1,
    decreases ops.len(),
{
    if ops.len() == 0 {
        assert(run(m, ops).2 + m.stream() =~= m.stream() + run(m, ops).1);
    } else {
        match ops[0] {
            ChannelOp::Send(v) => {
                lemma_send_step(m, v);
                let m1 = send_step(m, v).0;
                let rest = run(m1, ops.drop_first());
                lemma_fifo_interleaved(m1, ops.drop_first());
                if !m.closed {
                    assert(rest.2 + rest.0.stream() =~= m.stream().push(v) + rest.1);
                    assert(m.stream().push(v) + rest.1 =~= m.stream() + (seq![v] + rest.1));
                }
            },
            ChannelOp::Recv => {
                lemma_recv_step(m);
                let m1 = recv_step(m).0;
                let rest = run(m1, ops.drop_first());
                lemma_fifo_interleaved(m1, ops.drop_first());
                if m.stream().len() > 0 {
                    assert((seq![m.stream()[0]] + rest.2) + rest.0.stream() =~= seq![m.stream()[0]]
                        + (rest.2 + rest.0.stream()));
                    assert(seq![m.stream()[0]] + (m.stream().drop_first() + rest.1) =~= m.stream()
                        + rest.1);
                }
            },
        }
    }
}

/// Conservation law: over any run of sends and receives, however the two
/// sides interleave, the count of accepted sends equals the count of
/// delivered values plus the count still undelivered: no queued slot is
/// duplicated or skipped.
pub proof fn lemma_conservation<T>(m: ChannelModel<T>, ops: Seq<ChannelOp<T>>)
    requires
        m.wf(),
    ensures
        run(m, ops).0.wf(),
        m.stream().len() + run(m, ops).1.len() == run(m, ops).2.len() + run(
            m,
            ops,
        ).0.stream().len(),
{
    lemma_fifo_interleaved(m, ops);
    assert((run(m, ops).2 + run(m, ops).0.stream()).len() == (m.stream() + run(m, ops).1).len());
}

} // verus!
