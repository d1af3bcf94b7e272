//! The task scheduler model.
//!
//! A task is an independently schedulable unit of work. The scheduler owns
//! the lifecycle of every spawned task and nothing else: it never inspects
//! what a task computes, and tasks communicate only through channels. The
//! runtime that owns the task bodies drives the `start`/`complete`
//! transitions; `spawn` returns at once, fire-and-forget, and a caller that
//! needs deterministic completion joins explicitly.

use vstd::prelude::*;

verus! {

/// The phases of a task's life. They move only forward:
/// `Pending` at spawn, `Running` once scheduled, `Completed` when the body
/// returns; a completed slot never changes again.
#[derive(Clone, Copy, Debug, PartialEq, Eq, Structural)]
pub enum TaskStatus {
    Pending,
    Running,
    Completed,
}

/// What a join attempt observes.
#[derive(Clone, Copy, Debug, PartialEq, Eq, Structural)]
pub enum JoinOutcome {
    /// The task completed normally.
    Done,
    /// The task's body terminated abnormally. The failure of a task that is
    /// never joined surfaces nowhere: fire-and-forget by design.
    Failed,
    /// The task has not completed yet: the caller suspends and retries once
    /// the scheduler reports the task completed.
    NotYet,
}

/// One task slot as the scheduler sees it: the lifecycle phase, and whether
/// the body returned normally (meaningful once `Completed`).
#[derive(Clone, Copy, Debug, PartialEq, Eq, Structural)]
pub struct Task {
    status: TaskStatus,
    normal: bool,
}

impl Task {
    /// The lifecycle phase of this slot.
    pub closed spec fn status(self) -> TaskStatus {
        self.status
    }

    /// Whether the body returned normally; meaningful once `Completed`.
    pub closed spec fn normal(self) -> bool {
        self.normal
    }
}

/// A reference to a spawned task, handed back by `spawn` and accepted by
/// `join`. The spawning context does not own the task through it.
#[derive(Clone, Copy, Debug, PartialEq, Eq, Structural)]
pub struct TaskHandle {
    id: usize,
}

impl TaskHandle {
    /// The slot this handle refers to.
    pub closed spec fn id(self) -> int {
        self.id as int
    }
}

/// The scheduler: the table of every task spawned so far, indexed by the
/// handles it has handed out.
pub struct Scheduler {
    tasks: Vec<Task>,
}

impl Scheduler {
    /// The task table, oldest spawn first.
    pub closed spec fn tasks(&self) -> Seq<Task> {
        self.tasks@
    }

    /// Whether a handle refers to a spawned task of this scheduler.
    pub open spec fn owns(&self, h: TaskHandle) -> bool {
        0 <= h.id() < self.tasks().len()
    }

    /// A scheduler with no tasks yet.
    pub fn new() -> (s: Scheduler)
        ensures
            s.tasks() == Seq::<Task>::empty(),
    {
        Scheduler { tasks: Vec::new() }
    }

    /// Spawns a task: a new `Pending` slot, scheduled for execution, and a
    /// handle to it. Returns at once, without waiting for the task to run or
    /// finish; no existing slot moves.
    pub fn spawn(&mut self) -> (h: TaskHandle)
        ensures
            h.id() == old(self).tasks().len(),
            final(self).tasks().len() == old(self).tasks().len() + 1,
            final(self).tasks()[h.id()].status() == TaskStatus::Pending,
            final(self).tasks()[h.id()].normal(),
            forall|i: int|
                0 <= i < old(self).tasks().len() ==> final(self).tasks()[i] == old(self).tasks()[i],
    {
        let id = self.tasks.len();
        self.tasks.push(Task { status: TaskStatus::Pending, normal: true });
        TaskHandle { id }
    }

    /// The phase of the task a handle refers to.
    pub fn status_of(&self, h: TaskHandle) -> (s: TaskStatus)
        requires
            self.owns(h),
        ensures
            s == self.tasks()[h.id()].status(),
    {
        self.tasks[h.id].status
    }

    /// The runtime reports that a pending task began running. Only that slot
    /// moves, and only forward.
    pub fn start(&mut self, h: TaskHandle)
        requires
            old(self).owns(h),
            old(self).tasks()[h.id()].status() == TaskStatus::Pending,
        ensures
            final(self).tasks().len() == old(self).tasks().len(),
            final(self).tasks()[h.id()].status() == TaskStatus::Running,
            final(self).tasks()[h.id()].normal(),
            forall|i: int|
                0 <= i < old(self).tasks().len() && i != h.id() ==> final(self).tasks()[i] == old(
                    self,
                ).tasks()[i],
    {
        self.tasks[h.id] = Task { status: TaskStatus::Running, normal: true };
    }

    /// The runtime reports that a running task's body returned, normally or
    /// abnormally. Only that slot moves; a completed slot never moves again.
    pub fn complete(&mut self, h: TaskHandle, normal: bool)
        requires
            old(self).owns(h),
            old(self).tasks()[h.id()].status() == TaskStatus::Running,
        ensures
            final(self).tasks().len() == old(self).tasks().len(),
            final(self).tasks()[h.id()].status() == TaskStatus::Completed,
            final(self).tasks()[h.id()].normal() == normal,
            forall|i: int|
                0 <= i < old(self).tasks().len() && i != h.id() ==> final(self).tasks()[i] == old(
                    self,
                ).tasks()[i],
    {
        self.tasks[h.id] = Task { status: TaskStatus::Completed, normal };
    }

    /// A join attempt: `Done` exactly when the task completed normally,
    /// `Failed` exactly when its body terminated abnormally, and `NotYet`
    /// otherwise, in which case the caller suspends and retries. Joining
    /// changes nothing.
    pub fn join(&self, h: TaskHandle) -> (r: JoinOutcome)
        requires
            self.owns(h),
        ensures
            r == JoinOutcome::Done <==> self.tasks()[h.id()].status() == TaskStatus::Completed
                && self.tasks()[h.id()].normal(),
            r == JoinOutcome::Failed <==> self.tasks()[h.id()].status() == TaskStatus::Completed
                && !self.tasks()[h.id()].normal(),
            r == JoinOutcome::NotYet <==> self.tasks()[h.id()].status() != TaskStatus::Completed,
    {
        let t = self.tasks[h.id];
        match t.status {
            TaskStatus::Completed => if t.normal {
                JoinOutcome::Done
            } else {
                JoinOutcome::Failed
            },
            TaskStatus::Pending => JoinOutcome::NotYet,
            TaskStatus::Running => JoinOutcome::NotYet,
        }
    }
}

} // verus!
