//! The producer bodies of the channel demos: the part of each spawned task
//! that talks to the channel. A runtime runs them inside a task and does the
//! printing around them; every value they push into the stream is pinned
//! here.

use vstd::prelude::*;

use crate::channel::Channel;

verus! {

/// Sends `1`, `2`, `3` in order. The channel must be open: this producer
/// treats a refused send as fatal, so a closed channel is ruled out rather
/// than handled.
pub fn tx_chan(send_x: &mut Channel<i64>)
    requires
        old(send_x).wf(),
        !old(send_x).is_closed(),
    ensures
        final(send_x).wf(),
        !final(send_x).is_closed(),
        final(send_x).cap() == old(send_x).cap(),
        final(send_x).stream() == old(send_x).stream() + seq![1i64, 2i64, 3i64],
{
    let r1 = send_x.send(1);
    let r2 = send_x.send(2);
    let r3 = send_x.send(3);
    proof {
        assert(r1 is Ok && r2 is Ok && r3 is Ok);
        assert(send_x.stream() =~= old(send_x).stream() + seq![1i64, 2i64, 3i64]);
    }
}

/// Sends one value. The channel must be open, as in `tx_chan`.
pub fn tx_i64_chan(x: i64, send_x: &mut Channel<i64>)
    requires
        old(send_x).wf(),
        !old(send_x).is_closed(),
    ensures
        final(send_x).wf(),
        !final(send_x).is_closed(),
        final(send_x).cap() == old(send_x).cap(),
        final(send_x).stream() == old(send_x).stream().push(x),
{
    let r = send_x.send(x);
    proof {
        assert(r is Ok);
    }
}

} // verus!
