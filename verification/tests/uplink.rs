use esp_wiffy::packet::PubPacket;
use esp_wiffy::uplink::{UplinkAction, UplinkEvent, UplinkTask, BROKER_PORT};

#[test]
fn uplink_startup_order() {
    let mut task = UplinkTask::new();
    assert!(matches!(task.pending(), UplinkAction::CheckLink));
    assert!(matches!(task.step(UplinkEvent::LinkStatus(false)), UplinkAction::Wait(500)));
    assert!(matches!(task.step(UplinkEvent::TimerElapsed), UplinkAction::CheckLink));
    assert!(matches!(task.step(UplinkEvent::LinkStatus(true)), UplinkAction::CheckAddress));
    assert!(matches!(task.step(UplinkEvent::AddressStatus(false)), UplinkAction::Wait(500)));
    assert!(matches!(task.step(UplinkEvent::TimerElapsed), UplinkAction::CheckAddress));
    assert!(matches!(task.step(UplinkEvent::AddressStatus(true)), UplinkAction::LookupBroker));
    assert!(matches!(task.step(UplinkEvent::BrokerLookup(Err(()))), UplinkAction::LookupBroker));
    match task.step(UplinkEvent::BrokerLookup(Ok([35, 158, 1, 2]))) {
        UplinkAction::ConnectSocket { address, port } => {
            assert_eq!(address, [35, 158, 1, 2]);
            assert_eq!(port, 1883);
            assert_eq!(BROKER_PORT, 1883);
        }
        other => panic!("unexpected action {other:?}"),
    }
    assert!(matches!(task.step(UplinkEvent::SocketConnected(false)), UplinkAction::ConnectBroker));
    assert!(matches!(task.step(UplinkEvent::BrokerConnected(false)), UplinkAction::StartSensors));
    assert!(matches!(task.step(UplinkEvent::SensorsStarted), UplinkAction::Receive));
}

fn ready() -> UplinkTask {
    let mut task = UplinkTask::new();
    task.step(UplinkEvent::LinkStatus(true));
    task.step(UplinkEvent::AddressStatus(true));
    task.step(UplinkEvent::BrokerLookup(Ok([1, 2, 3, 4])));
    task.step(UplinkEvent::SocketConnected(true));
    task.step(UplinkEvent::BrokerConnected(true));
    task.step(UplinkEvent::SensorsStarted);
    task
}

#[test]
fn uplink_publishes_reading_in_order() {
    let mut task = ready();
    match task.step(UplinkEvent::Received(PubPacket::Temp(19, 63))) {
        UplinkAction::Publish(m) => {
            assert_eq!(m.payload, b"19_tmp".to_vec());
            assert_eq!(m.topic, "esp32/shazbot/test");
        }
        other => panic!("unexpected action {other:?}"),
    }
    match task.step(UplinkEvent::Sent(true)) {
        UplinkAction::Publish(m) => assert_eq!(m.payload, b"63_humidity".to_vec()),
        other => panic!("unexpected action {other:?}"),
    }
    assert!(matches!(task.step(UplinkEvent::Sent(true)), UplinkAction::Rest { announce: true }));
    assert!(matches!(task.step(UplinkEvent::TimerElapsed), UplinkAction::Receive));
}

#[test]
fn uplink_publishes_fire() {
    let mut task = ready();
    match task.step(UplinkEvent::Received(PubPacket::Other(true))) {
        UplinkAction::Publish(m) => assert_eq!(m.payload, b"FIRE".to_vec()),
        other => panic!("unexpected action {other:?}"),
    }
    assert!(matches!(task.step(UplinkEvent::Sent(true)), UplinkAction::Rest { announce: true }));
}

#[test]
fn uplink_skips_no_flame() {
    let mut task = ready();
    assert!(matches!(
        task.step(UplinkEvent::Received(PubPacket::Other(false))),
        UplinkAction::Rest { announce: false }
    ));
    assert!(matches!(task.step(UplinkEvent::TimerElapsed), UplinkAction::Receive));
}

#[test]
fn uplink_failed_send_halts() {
    let mut task = ready();
    task.step(UplinkEvent::Received(PubPacket::Temp(1, 2)));
    assert!(matches!(task.step(UplinkEvent::Sent(false)), UplinkAction::Abort));
    assert!(matches!(task, UplinkTask::Halted));
    assert!(matches!(task.step(UplinkEvent::TimerElapsed), UplinkAction::Abort));
}

#[test]
fn uplink_repeats_pending_on_unexpected_event() {
    let mut task = ready();
    task.step(UplinkEvent::Received(PubPacket::Temp(1, 2)));
    match task.step(UplinkEvent::TimerElapsed) {
        UplinkAction::Publish(m) => assert_eq!(m.payload, b"1_tmp".to_vec()),
        other => panic!("unexpected action {other:?}"),
    }
}

#[test]
fn uplink_rest_after_nothing_sent_stays_quiet() {
    let mut task = ready();
    task.step(UplinkEvent::Received(PubPacket::Other(false)));
    assert!(matches!(task, UplinkTask::Resting(false)));
    assert!(matches!(
        task.step(UplinkEvent::Sent(true)),
        UplinkAction::Rest { announce: false }
    ));
}
