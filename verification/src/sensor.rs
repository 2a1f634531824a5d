//! The temperature task: read the DHT11, queue the reading, rest, repeat.
//!
//! The task is a state machine. Its owner performs each action (a sensor read,
//! a queue insertion, a timer wait) and hands back what came of it.

use vstd::prelude::*;

use crate::packet::PubPacket;

verus! {

/// How long the task rests after queueing a reading, in milliseconds.
pub const READING_INTERVAL_MS: u64 = 10_000;

/// Where the temperature task stands.
#[derive(Clone, Copy, Debug, PartialEq, Eq, Structural)]
pub enum SensorTask {
    /// A sensor read is under way.
    Measuring,
    /// This reading (temperature, relative humidity) is being put on the queue
    /// (waiting while the queue is full).
    Enqueuing(i8, u8),
    /// Resting between two readings.
    Resting,
}

/// What came of the last action.
#[derive(Clone, Copy, Debug, PartialEq, Eq, Structural)]
pub enum SensorEvent {
    /// The sensor answered with a temperature and a relative humidity.
    Measured(i8, u8),
    /// The sensor read failed.
    MeasurementFailed,
    /// The packet is on the queue.
    Enqueued,
    /// The rest is over.
    TimerElapsed,
}

/// What the task does next.
#[derive(Clone, Copy, Debug, PartialEq, Eq, Structural)]
pub enum SensorAction {
    /// Read the sensor.
    Measure,
    /// Put the packet on the queue.
    Enqueue(PubPacket),
    /// Wait this many milliseconds.
    Wait(u64),
}

/// The action that a task in `task` is waiting on.
pub open spec fn sensor_pending(task: SensorTask) -> SensorAction {
    match task {
        SensorTask::Measuring => SensorAction::Measure,
        SensorTask::Enqueuing(t, h) => SensorAction::Enqueue(PubPacket::Temp(t, h)),
        SensorTask::Resting => SensorAction::Wait(READING_INTERVAL_MS as u64),
    }
}

/// The task's transitions. A reading is queued as a `Temp` packet and followed
/// by a rest; a failed read is retried at once; an event that does not answer
/// the pending action leaves the task where it was, still waiting on it.
pub open spec fn sensor_next(task: SensorTask, event: SensorEvent) -> (SensorTask, SensorAction) {
    match (task, event) {
        (SensorTask::Measuring, SensorEvent::Measured(t, h)) => (
            SensorTask::Enqueuing(t, h),
            SensorAction::Enqueue(PubPacket::Temp(t, h)),
        ),
        (SensorTask::Measuring, SensorEvent::MeasurementFailed) => (
            SensorTask::Measuring,
            SensorAction::Measure,
        ),
        (SensorTask::Enqueuing(_, _), SensorEvent::Enqueued) => (
            SensorTask::Resting,
            SensorAction::Wait(READING_INTERVAL_MS as u64),
        ),
        (SensorTask::Resting, SensorEvent::TimerElapsed) => (
            SensorTask::Measuring,
            SensorAction::Measure,
        ),
        _ => (task, sensor_pending(task)),
    }
}

impl SensorTask {
    /// A task about to take its first reading.
    pub fn new() -> (r: SensorTask)
        ensures
            r == SensorTask::Measuring,
    {
        SensorTask::Measuring
    }

    /// The action the task is waiting on.
    pub fn pending(&self) -> (a: SensorAction)
        ensures
            a == sensor_pending(*self),
    {
        match self {
            SensorTask::Measuring => SensorAction::Measure,
            SensorTask::Enqueuing(t, h) => SensorAction::Enqueue(PubPacket::Temp(*t, *h)),
            SensorTask::Resting => SensorAction::Wait(READING_INTERVAL_MS),
        }
    }

    /// Takes the outcome of the pending action and returns the next action.
    pub fn step(&mut self, event: SensorEvent) -> (a: SensorAction)
        ensures
            (*final(self), a) == sensor_next(*old(self), event),
    {
        let task = *self;
        let (next, action) = match (task, event) {
            (SensorTask::Measuring, SensorEvent::Measured(t, h)) => (
                SensorTask::Enqueuing(t, h),
                SensorAction::Enqueue(PubPacket::Temp(t, h)),
            ),
            (SensorTask::Measuring, SensorEvent::MeasurementFailed) => (
                SensorTask::Measuring,
                SensorAction::Measure,
            ),
            (SensorTask::Enqueuing(_, _), SensorEvent::Enqueued) => (
                SensorTask::Resting,
                SensorAction::Wait(READING_INTERVAL_MS),
            ),
            (SensorTask::Resting, SensorEvent::TimerElapsed) => (
                SensorTask::Measuring,
                SensorAction::Measure,
            ),
            _ => (task, task.pending()),
        };
        *self = next;
        action
    }
}

} // verus!
