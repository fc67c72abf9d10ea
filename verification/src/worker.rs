//! The worker lifecycle: CPU-aware consumer priority and signal-driven
//! graceful drain.
//!
//! A worker owns a node state.  Every time the number of running tasks
//! changes, it cancels its broker consumer and recreates it with the
//! priority `8192 · cpus / 2^tasks − tasks`, so that idle nodes win the
//! competition for the next task.  On a termination signal it stops
//! accepting tasks and exits once the running tasks have drained.

use vstd::prelude::*;

use vstd::arithmetic::power2::pow2;

verus! {

/// The consumer priority of a node: high for many idle CPUs, sharply lower
/// for every task already running.
pub open spec fn spec_priority(cpus: int, tasks: int) -> int {
    8192 * cpus / pow2(tasks as nat) as int - tasks
}

/// The state of a worker node.
#[derive(Debug)]
pub struct NodeState {
    /// Number of virtual CPUs available on the node.
    pub cpus: i64,

    /// Number of tasks currently running on the node.
    pub tasks: i64,

    /// Whether the worker is currently accepting tasks.
    pub accept_tasks: bool,

    /// The broker consumer tag, stable so cancellation is precise.
    pub consumer_id: String,
}

/// A worker's counters stay in range: at least one CPU, few enough that
/// the priority arithmetic stays exact, and a task count that the priority
/// divisor can absorb.
pub open spec fn node_wf(s: NodeState) -> bool {
    &&& 1 <= s.cpus <= 0x10000000000
    &&& 0 <= s.tasks <= 62
}

/// What the worker does after handling an event.
#[derive(Debug, Clone, Copy, PartialEq, Eq, Structural)]
pub enum WorkerAction {
    /// Keep the current consumer and keep consuming.
    Continue,

    /// Cancel the consumer; it is recreated with the current priority
    /// while tasks are accepted, and never again once draining.
    CancelConsumer,
}

/// A signal the worker reacts to.
#[derive(Debug, Clone, Copy, PartialEq, Eq, Structural)]
pub enum WorkerSignal {
    /// Reload configuration; keep consuming.
    Hangup,

    /// Terminate gracefully.
    Terminate,

    /// Interrupt: same drain as terminate.
    Interrupt,

    /// Quit: same drain as terminate.
    Quit,
}

impl NodeState {
    /// Initializes the node state: no task running, accepting tasks.
    pub fn new(cpus: i64, consumer_id: String) -> (r: NodeState)
        requires
            1 <= cpus <= 0x10000000000,
        ensures
            r.cpus == cpus,
            r.tasks == 0,
            r.accept_tasks,
            r.consumer_id == consumer_id,
            node_wf(r),
    {
        NodeState { cpus, tasks: 0, accept_tasks: true, consumer_id }
    }

    /// The current consumer priority.
    pub fn priority(&self) -> (r: i64)
        requires
            node_wf(*self),
        ensures
            r == spec_priority(self.cpus as int, self.tasks as int),
    {
        let mut p: i64 = 1;
        let mut j: i64 = 0;
        proof {
            vstd::arithmetic::power2::lemma2_to64();
        }
        while j < self.tasks
            invariant
                0 <= j <= self.tasks <= 62,
                p == pow2(j as nat),
            decreases self.tasks - j,
        {
            proof {
                vstd::arithmetic::power2::lemma_pow2_unfold((j + 1) as nat);
                vstd::arithmetic::power2::lemma2_to64_rest();
                vstd::arithmetic::power2::lemma_pow2_strictly_increases((j + 1) as nat, 63);
                assert(pow2((j + 1) as nat) == 2 * pow2(j as nat));
                assert(pow2((j + 1) as nat) < pow2(63));
                assert(2 * p < pow2(63));
            }
            p = p * 2;
            j = j + 1;
        }
        proof {
            vstd::arithmetic::power2::lemma2_to64();
            vstd::arithmetic::power2::lemma_pow2_pos(self.tasks as nat);
        }
        8192 * self.cpus / p - self.tasks
    }

    /// The priority to create a consumer with: nothing while the worker is
    /// draining, the current priority otherwise.
    pub fn consumer_priority(&self) -> (r: Option<i64>)
        requires
            node_wf(*self),
        ensures
            match r {
                Some(p) => self.accept_tasks && p == spec_priority(
                    self.cpus as int,
                    self.tasks as int,
                ),
                None => !self.accept_tasks,
            },
    {
        if self.accept_tasks {
            Some(self.priority())
        } else {
            None
        }
    }

    /// Records a task start.  The consumer must be recreated so its
    /// priority reflects the new load.
    pub fn increase_tasks(&mut self) -> (r: WorkerAction)
        requires
            node_wf(*old(self)),
            old(self).tasks < 62,
        ensures
            *final(self) == (NodeState { tasks: (old(self).tasks + 1) as i64, ..*old(self) }),
            node_wf(*final(self)),
            r == WorkerAction::CancelConsumer,
    {
        self.tasks = self.tasks + 1;
        WorkerAction::CancelConsumer
    }

    /// Records a task end.  The consumer must be recreated so its priority
    /// reflects the new load.
    pub fn decrease_tasks(&mut self) -> (r: WorkerAction)
        requires
            node_wf(*old(self)),
            old(self).tasks > 0,
        ensures
            *final(self) == (NodeState { tasks: (old(self).tasks - 1) as i64, ..*old(self) }),
            node_wf(*final(self)),
            r == WorkerAction::CancelConsumer,
    {
        self.tasks = self.tasks - 1;
        WorkerAction::CancelConsumer
    }

    /// Reacts to a signal: a hangup reloads configuration and keeps the
    /// consumer; a termination signal stops accepting tasks and cancels
    /// the consumer, after which outstanding tasks drain.
    pub fn on_signal(&mut self, sig: WorkerSignal) -> (r: WorkerAction)
        ensures
            match sig {
                WorkerSignal::Hangup => *final(self) == *old(self) && r == WorkerAction::Continue,
                _ => *final(self) == (NodeState { accept_tasks: false, ..*old(self) }) && r
                    == WorkerAction::CancelConsumer,
            },
            node_wf(*old(self)) ==> node_wf(*final(self)),
    {
        match sig {
            WorkerSignal::Hangup => WorkerAction::Continue,
            _ => {
                self.accept_tasks = false;
                WorkerAction::CancelConsumer
            },
        }
    }

    /// True when the worker has drained and can exit: it no longer accepts
    /// tasks and none is running.
    pub fn is_finished(&self) -> (r: bool)
        ensures
            r == (!self.accept_tasks && self.tasks == 0),
    {
        !self.accept_tasks && self.tasks == 0
    }
}

} // verus!
