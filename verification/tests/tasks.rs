use esp_wiffy::flame::{FlameAction, FlameEvent, FlameTask, SAMPLE_INTERVAL_MS};
use esp_wiffy::packet::PubPacket;
use esp_wiffy::sensor::{SensorAction, SensorEvent, SensorTask, READING_INTERVAL_MS};

#[test]
fn sensor_reading_cycle() {
    let mut task = SensorTask::new();
    assert_eq!(task.pending(), SensorAction::Measure);
    assert_eq!(
        task.step(SensorEvent::Measured(22, 51)),
        SensorAction::Enqueue(PubPacket::Temp(22, 51))
    );
    assert_eq!(task.step(SensorEvent::Enqueued), SensorAction::Wait(10_000));
    assert_eq!(READING_INTERVAL_MS, 10_000);
    assert_eq!(task.step(SensorEvent::TimerElapsed), SensorAction::Measure);
    assert_eq!(task, SensorTask::Measuring);
}

#[test]
fn sensor_failure_is_retried_at_once() {
    let mut task = SensorTask::new();
    assert_eq!(task.step(SensorEvent::MeasurementFailed), SensorAction::Measure);
    assert_eq!(task, SensorTask::Measuring);
}

#[test]
fn sensor_ignores_unexpected_events() {
    let mut task = SensorTask::new();
    task.step(SensorEvent::Measured(-4, 30));
    assert_eq!(
        task.step(SensorEvent::TimerElapsed),
        SensorAction::Enqueue(PubPacket::Temp(-4, 30))
    );
    assert_eq!(task, SensorTask::Enqueuing(-4, 30));
}

#[test]
fn flame_seen_is_queued() {
    let mut task = FlameTask::new();
    assert_eq!(task.pending(), FlameAction::Sample);
    assert_eq!(
        task.step(FlameEvent::Level(true)),
        FlameAction::Enqueue(PubPacket::Other(true))
    );
    assert_eq!(task.step(FlameEvent::Enqueued), FlameAction::Wait(200));
    assert_eq!(task.step(FlameEvent::TimerElapsed), FlameAction::Sample);
}

#[test]
fn no_flame_rests() {
    let mut task = FlameTask::new();
    assert_eq!(task.step(FlameEvent::Level(false)), FlameAction::Wait(SAMPLE_INTERVAL_MS));
    assert_eq!(task, FlameTask::Resting);
    assert_eq!(task.step(FlameEvent::Enqueued), FlameAction::Wait(200));
    assert_eq!(task.step(FlameEvent::TimerElapsed), FlameAction::Sample);
}

#[test]
fn sensor_series_queues_successful_readings_in_order() {
    let results: Vec<Option<(i8, u8)>> = vec![Some((20, 40)), None, None, Some((-3, 90)), None];
    let mut task = SensorTask::new();
    let mut action = task.pending();
    let mut queued = Vec::new();
    let mut next = 0;
    while next < results.len() || !matches!(action, SensorAction::Measure) {
        let event = match action {
            SensorAction::Measure => {
                let r = results[next];
                next += 1;
                match r {
                    Some((t, h)) => SensorEvent::Measured(t, h),
                    None => SensorEvent::MeasurementFailed,
                }
            }
            SensorAction::Enqueue(p) => {
                queued.push(p);
                SensorEvent::Enqueued
            }
            SensorAction::Wait(_) => SensorEvent::TimerElapsed,
        };
        action = task.step(event);
    }
    assert_eq!(queued, vec![PubPacket::Temp(20, 40), PubPacket::Temp(-3, 90)]);
}

#[test]
fn flame_series_one_warning_per_high_poll() {
    let polls = [true, false, true, true, false];
    let mut task = FlameTask::new();
    let mut action = task.pending();
    let mut queued = Vec::new();
    let mut next = 0;
    while next < polls.len() || !matches!(action, FlameAction::Sample) {
        let event = match action {
            FlameAction::Sample => {
                let high = polls[next];
                next += 1;
                FlameEvent::Level(high)
            }
            FlameAction::Enqueue(p) => {
                queued.push(p);
                FlameEvent::Enqueued
            }
            FlameAction::Wait(_) => FlameEvent::TimerElapsed,
        };
        action = task.step(event);
    }
    assert_eq!(queued, vec![PubPacket::Other(true); 3]);
}
