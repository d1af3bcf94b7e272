use chan_core::channel::Channel;
use chan_core::channel::ChannelError;
use chan_core::channel::RecvOutcome;
use chan_core::channel::SendOutcome;
use chan_core::producers::tx_chan;
use chan_core::producers::tx_i64_chan;

// Scenario: a capacity-2 channel; the producer sends 1, 2, 3 without delay;
// the third send is forced to wait for the first receive; the consumer
// observes 1, 2, 3 in order.
#[test]
fn scenario_bounded_three_values() {
    let mut ch: Channel<i64> = Channel::create(Some(2)).unwrap();
    assert_eq!(ch.send(1), Ok(SendOutcome::Enqueued));
    assert_eq!(ch.send(2), Ok(SendOutcome::Enqueued));
    assert_eq!(ch.send(3), Ok(SendOutcome::Suspended));
    assert_eq!(ch.receive(), RecvOutcome::Received(1));
    assert_eq!(ch.receive(), RecvOutcome::Received(2));
    assert_eq!(ch.receive(), RecvOutcome::Received(3));
}

// Scenario: an unbounded channel; the producer sends 1, 2, 3 and never
// suspends; the consumer receives the three values in order.
#[test]
fn scenario_unbounded_three_values() {
    let mut ch: Channel<i64> = Channel::create(None).unwrap();
    let producer = |v: i64, ch: &mut Channel<i64>| {
        assert_eq!(ch.send(v), Ok(SendOutcome::Enqueued));
    };
    producer(1, &mut ch);
    producer(2, &mut ch);
    producer(3, &mut ch);
    assert_eq!(ch.receive(), RecvOutcome::Received(1));
    assert_eq!(ch.receive(), RecvOutcome::Received(2));
    assert_eq!(ch.receive(), RecvOutcome::Received(3));
}

// Scenario: a task sends one value, 42; the main flow receives it once.
#[test]
fn scenario_single_handoff() {
    let mut ch: Channel<i64> = Channel::create(None).unwrap();
    tx_i64_chan(42, &mut ch);
    assert_eq!(ch.receive(), RecvOutcome::Received(42));
}

// The three-value producer body pushes exactly 1, 2, 3 into the stream.
#[test]
fn producer_body_sends_in_order() {
    let mut ch: Channel<i64> = Channel::create(None).unwrap();
    tx_chan(&mut ch);
    assert_eq!(ch.receive(), RecvOutcome::Received(1));
    assert_eq!(ch.receive(), RecvOutcome::Received(2));
    assert_eq!(ch.receive(), RecvOutcome::Received(3));
    assert_eq!(ch.receive(), RecvOutcome::Waiting);
}

// FIFO: sends completed before any receive come back in send order.
#[test]
fn fifo_order_many_values() {
    let mut ch: Channel<u32> = Channel::create(None).unwrap();
    for v in 0..100u32 {
        assert_eq!(ch.send(v), Ok(SendOutcome::Enqueued));
    }
    for v in 0..100u32 {
        assert_eq!(ch.receive(), RecvOutcome::Received(v));
    }
}

// Backpressure: with capacity c, the (c+1)-th send suspends; once a receive
// frees a slot, the suspended value is admitted and nothing is dropped.
#[test]
fn backpressure_admits_suspended_sender() {
    let mut ch: Channel<&str> = Channel::create(Some(1)).unwrap();
    assert_eq!(ch.send("a"), Ok(SendOutcome::Enqueued));
    assert_eq!(ch.send("b"), Ok(SendOutcome::Suspended));
    assert_eq!(ch.send("c"), Ok(SendOutcome::Suspended));
    assert_eq!(ch.receive(), RecvOutcome::Received("a"));
    assert_eq!(ch.receive(), RecvOutcome::Received("b"));
    assert_eq!(ch.receive(), RecvOutcome::Received("c"));
    assert_eq!(ch.receive(), RecvOutcome::Waiting);
}

// A rendezvous channel (capacity 0) buffers nothing: every send suspends
// until a receive takes the value directly.
#[test]
fn rendezvous_hands_over_directly() {
    let mut ch: Channel<i64> = Channel::create(Some(0)).unwrap();
    assert_eq!(ch.send(7), Ok(SendOutcome::Suspended));
    assert_eq!(ch.receive(), RecvOutcome::Received(7));
    assert_eq!(ch.receive(), RecvOutcome::Waiting);
}

// Close/drain: buffered values stay receivable after close; once drained,
// every further receive reports end-of-stream.
#[test]
fn close_then_drain_then_end_of_stream() {
    let mut ch: Channel<i64> = Channel::create(None).unwrap();
    assert_eq!(ch.send(10), Ok(SendOutcome::Enqueued));
    assert_eq!(ch.send(20), Ok(SendOutcome::Enqueued));
    assert_eq!(ch.close(), 0);
    assert_eq!(ch.receive(), RecvOutcome::Received(10));
    assert_eq!(ch.receive(), RecvOutcome::Received(20));
    assert_eq!(ch.receive(), RecvOutcome::EndOfStream);
    assert_eq!(ch.receive(), RecvOutcome::EndOfStream);
    assert_eq!(ch.receive(), RecvOutcome::EndOfStream);
}

// Closed-send failure: a send after close fails with ChannelClosed and
// enqueues nothing.
#[test]
fn send_after_close_fails() {
    let mut ch: Channel<i64> = Channel::create(None).unwrap();
    assert_eq!(ch.send(1), Ok(SendOutcome::Enqueued));
    ch.close();
    assert_eq!(ch.send(2), Err(ChannelError::ChannelClosed));
    assert_eq!(ch.receive(), RecvOutcome::Received(1));
    assert_eq!(ch.receive(), RecvOutcome::EndOfStream);
}

// Close releases every suspended sender, and reports how many failed.
#[test]
fn close_releases_suspended_senders() {
    let mut ch: Channel<i64> = Channel::create(Some(1)).unwrap();
    assert_eq!(ch.send(1), Ok(SendOutcome::Enqueued));
    assert_eq!(ch.send(2), Ok(SendOutcome::Suspended));
    assert_eq!(ch.send(3), Ok(SendOutcome::Suspended));
    assert_eq!(ch.close(), 2);
    assert_eq!(ch.receive(), RecvOutcome::Received(1));
    assert_eq!(ch.receive(), RecvOutcome::EndOfStream);
}

// A negative capacity is rejected at construction.
#[test]
fn negative_capacity_is_rejected() {
    let r: Result<Channel<i64>, ChannelError> = Channel::create(Some(-1));
    assert!(matches!(r, Err(ChannelError::InvalidCapacity)));
    let r2: Result<Channel<i64>, ChannelError> = Channel::create(Some(-1000));
    assert!(matches!(r2, Err(ChannelError::InvalidCapacity)));
}

// An external abort of a suspended send fails that call with Cancelled and
// corrupts nothing: the other values still arrive in order.
#[test]
fn cancel_suspended_send() {
    let mut ch: Channel<i64> = Channel::create(Some(1)).unwrap();
    assert_eq!(ch.send(1), Ok(SendOutcome::Enqueued));
    assert_eq!(ch.send(2), Ok(SendOutcome::Suspended));
    assert_eq!(ch.send(3), Ok(SendOutcome::Suspended));
    assert_eq!(ch.cancel_send(0), ChannelError::Cancelled);
    assert_eq!(ch.receive(), RecvOutcome::Received(1));
    assert_eq!(ch.receive(), RecvOutcome::Received(3));
    assert_eq!(ch.receive(), RecvOutcome::Waiting);
}

// Conservation: at any snapshot, accepted sends = delivered values + values
// still undelivered, under an arbitrary interleaving of sends and receives.
#[test]
fn conservation_under_interleaving() {
    let mut ch: Channel<u64> = Channel::create(Some(3)).unwrap();
    let mut accepted: u64 = 0;
    let mut delivered: u64 = 0;
    let mut undelivered: u64 = 0;
    for round in 0..50u64 {
        if ch.send(round).is_ok() {
            accepted += 1;
            undelivered += 1;
        }
        assert_eq!(accepted, delivered + undelivered);
        if round % 3 == 0 {
            match ch.receive() {
                RecvOutcome::Received(_) => {
                    delivered += 1;
                    undelivered -= 1;
                }
                RecvOutcome::Waiting => {}
                RecvOutcome::EndOfStream => unreachable!(),
            }
        }
        assert_eq!(accepted, delivered + undelivered);
    }
}

// An open, empty channel leaves the receiver waiting, and a later send
// satisfies the retried receive.
#[test]
fn empty_open_channel_waits() {
    let mut ch: Channel<i64> = Channel::create(None).unwrap();
    assert_eq!(ch.receive(), RecvOutcome::Waiting);
    assert_eq!(ch.send(5), Ok(SendOutcome::Enqueued));
    assert_eq!(ch.receive(), RecvOutcome::Received(5));
}
