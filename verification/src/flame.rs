//! The flame task: sample the flame sensor, queue a warning when it sees a
//! flame, rest, repeat.
//!
//! The task is a state machine. Its owner performs each action (a pin read, a
//! queue insertion, a timer wait) and hands back what came of it.

use vstd::prelude::*;

use crate::packet::PubPacket;

verus! {

/// How long the task rests between two samples, in milliseconds.
pub const SAMPLE_INTERVAL_MS: u64 = 200;

/// Where the flame task stands.
#[derive(Clone, Copy, Debug, PartialEq, Eq, Structural)]
pub enum FlameTask {
    /// The sensor pin is being read.
    Sampling,
    /// A warning is being put on the queue (waiting while the queue is full).
    Enqueuing,
    /// Resting between two samples.
    Resting,
}

/// What came of the last action.
#[derive(Clone, Copy, Debug, PartialEq, Eq, Structural)]
pub enum FlameEvent {
    /// The sensor pin reads high (`true`: a flame) or low.
    Level(bool),
    /// The warning is on the queue.
    Enqueued,
    /// The rest is over.
    TimerElapsed,
}

/// What the task does next.
#[derive(Clone, Copy, Debug, PartialEq, Eq, Structural)]
pub enum FlameAction {
    /// Read the sensor pin.
    Sample,
    /// Put the packet on the queue.
    Enqueue(PubPacket),
    /// Wait this many milliseconds.
    Wait(u64),
}

/// The action that a task in `task` is waiting on.
pub open spec fn flame_pending(task: FlameTask) -> FlameAction {
    match task {
        FlameTask::Sampling => FlameAction::Sample,
        FlameTask::Enqueuing => FlameAction::Enqueue(PubPacket::Other(true)),
        FlameTask::Resting => FlameAction::Wait(SAMPLE_INTERVAL_MS as u64),
    }
}

/// The task's transitions. A high pin queues `Other(true)` and then rests; a
/// low pin rests at once; an event that does not answer the pending action
/// leaves the task where it was, still waiting on it.
pub open spec fn flame_next(task: FlameTask, event: FlameEvent) -> (FlameTask, FlameAction) {
    match (task, event) {
        (FlameTask::Sampling, FlameEvent::Level(high)) => if high {
            (FlameTask::Enqueuing, FlameAction::Enqueue(PubPacket::Other(true)))
        } else {
            (FlameTask::Resting, FlameAction::Wait(SAMPLE_INTERVAL_MS as u64))
        },
        (FlameTask::Enqueuing, FlameEvent::Enqueued) => (
            FlameTask::Resting,
            FlameAction::Wait(SAMPLE_INTERVAL_MS as u64),
        ),
        (FlameTask::Resting, FlameEvent::TimerElapsed) => (FlameTask::Sampling, FlameAction::Sample),
        _ => (task, flame_pending(task)),
    }
}

impl FlameTask {
    /// A task about to take its first sample.
    pub fn new() -> (r: FlameTask)
        ensures
            r == FlameTask::Sampling,
    {
        FlameTask::Sampling
    }

    /// The action the task is waiting on.
    pub fn pending(&self) -> (a: FlameAction)
        ensures
            a == flame_pending(*self),
    {
        match self {
            FlameTask::Sampling => FlameAction::Sample,
            FlameTask::Enqueuing => FlameAction::Enqueue(PubPacket::Other(true)),
            FlameTask::Resting => FlameAction::Wait(SAMPLE_INTERVAL_MS),
        }
    }

    /// Takes the outcome of the pending action and returns the next action.
    pub fn step(&mut self, event: FlameEvent) -> (a: FlameAction)
        ensures
            (*final(self), a) == flame_next(*old(self), event),
    {
        let task = *self;
        let (next, action) = match (task, event) {
            (FlameTask::Sampling, FlameEvent::Level(high)) => if high {
                (FlameTask::Enqueuing, FlameAction::Enqueue(PubPacket::Other(true)))
            } else {
                (FlameTask::Resting, FlameAction::Wait(SAMPLE_INTERVAL_MS))
            },
            (FlameTask::Enqueuing, FlameEvent::Enqueued) => (
                FlameTask::Resting,
                FlameAction::Wait(SAMPLE_INTERVAL_MS),
            ),
            (FlameTask::Resting, FlameEvent::TimerElapsed) => (
                FlameTask::Sampling,
                FlameAction::Sample,
            ),
            _ => (task, task.pending()),
        };
        *self = next;
        action
    }
}

} // verus!
