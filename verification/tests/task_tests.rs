use chan_core::channel::Channel;
use chan_core::channel::RecvOutcome;
use chan_core::producers::tx_i64_chan;
use chan_core::task::JoinOutcome;
use chan_core::task::Scheduler;
use chan_core::task::TaskStatus;

// Scenario: a spawned task sends one value, 42; the main flow receives it
// once and exits without joining, whatever the task does after its send.
#[test]
fn spawned_task_sends_value() {
    let mut sched = Scheduler::new();
    let mut ch: Channel<i64> = Channel::create(None).unwrap();
    let h = sched.spawn();
    // The runtime runs the task body concurrently with the spawning flow.
    sched.start(h);
    tx_i64_chan(42, &mut ch);
    assert_eq!(ch.receive(), RecvOutcome::Received(42));
    // No join: the task's further life is invisible to the main flow.
    assert_eq!(sched.status_of(h), TaskStatus::Running);
}

// Scenario: a spawned task never touches a channel; the caller proceeds
// without waiting, and both sides produce their output.
#[test]
fn detached_task_runs_independently() {
    let mut sched = Scheduler::new();
    let h = sched.spawn();
    assert_eq!(sched.status_of(h), TaskStatus::Pending);
    // The caller proceeds at once, without waiting for the task.
    println!("done");
    // The runtime schedules the task and its body prints on its own.
    sched.start(h);
    println!("42");
    sched.complete(h, true);
    assert_eq!(sched.status_of(h), TaskStatus::Completed);
}

// A task moves Pending -> Running -> Completed and a join observes each
// phase correctly.
#[test]
fn join_follows_lifecycle() {
    let mut sched = Scheduler::new();
    let h = sched.spawn();
    assert_eq!(sched.join(h), JoinOutcome::NotYet);
    sched.start(h);
    assert_eq!(sched.join(h), JoinOutcome::NotYet);
    sched.complete(h, true);
    assert_eq!(sched.join(h), JoinOutcome::Done);
    assert_eq!(sched.join(h), JoinOutcome::Done);
}

// A body that terminates abnormally surfaces only to an explicit join.
#[test]
fn abnormal_termination_fails_join() {
    let mut sched = Scheduler::new();
    let h = sched.spawn();
    sched.start(h);
    sched.complete(h, false);
    assert_eq!(sched.join(h), JoinOutcome::Failed);
}

// Spawning is fire-and-forget: the spawner gets a handle back at once and
// earlier tasks are untouched.
#[test]
fn spawn_returns_at_once() {
    let mut sched = Scheduler::new();
    let h1 = sched.spawn();
    let h2 = sched.spawn();
    let h3 = sched.spawn();
    assert_ne!(h1, h2);
    assert_ne!(h2, h3);
    assert_eq!(sched.status_of(h1), TaskStatus::Pending);
    sched.start(h2);
    assert_eq!(sched.status_of(h1), TaskStatus::Pending);
    assert_eq!(sched.status_of(h2), TaskStatus::Running);
    assert_eq!(sched.status_of(h3), TaskStatus::Pending);
}
