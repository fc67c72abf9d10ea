//! The status of a long-running task attached to a capsule, and the legal
//! transitions between statuses.

use vstd::prelude::*;

verus! {

/// The different states in which a task can be.
#[derive(Debug, Clone, Copy, PartialEq, Eq, Structural)]
pub enum TaskStatus {
    /// The task should not be run.
    Disabled,

    /// Waiting to start.
    Idle,

    /// Running, but not finished.
    Running,

    /// Finished.
    Done,
}

/// The legal transitions of a task status: a task is started from `Idle`,
/// finishes into `Done` or falls back to `Idle` on failure or cancellation,
/// and a finished task can be invalidated back to `Idle`.
pub open spec fn legal_transition(from: TaskStatus, to: TaskStatus) -> bool {
    ||| (from == TaskStatus::Idle && to == TaskStatus::Running)
    ||| (from == TaskStatus::Running && to == TaskStatus::Done)
    ||| (from == TaskStatus::Running && to == TaskStatus::Idle)
    ||| (from == TaskStatus::Done && to == TaskStatus::Idle)
}

impl TaskStatus {
    /// True when a new task may be started from this status.
    pub fn can_start(self) -> (r: bool)
        ensures
            r == legal_transition(self, TaskStatus::Running),
    {
        self == TaskStatus::Idle
    }

    /// The status a running task ends in: `Done` on success, `Idle` on
    /// failure or cancellation.
    pub fn finished(success: bool) -> (r: TaskStatus)
        ensures
            r == (if success {
                TaskStatus::Done
            } else {
                TaskStatus::Idle
            }),
            legal_transition(TaskStatus::Running, r),
    {
        if success {
            TaskStatus::Done
        } else {
            TaskStatus::Idle
        }
    }
}

/// The kinds of task recorded by the statistics layer.
#[derive(Debug, Clone, Copy, PartialEq, Eq, Structural)]
pub enum TaskStatType {
    /// A production of a capsule.
    Production,

    /// A publication of a capsule.
    Publication,
}

} // verus!
