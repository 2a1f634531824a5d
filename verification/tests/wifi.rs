use esp_wiffy::wifi::{WifiAction, WifiEvent, WifiLink, WifiPhase, RECONNECT_DELAY_MS};

#[test]
fn wifi_bring_up() {
    let mut link = WifiLink::new("home-network", "hunter22");
    assert_eq!(link.pending(), WifiAction::QueryState);
    assert_eq!(link.step(WifiEvent::State(false)), WifiAction::QueryStarted);
    assert_eq!(link.step(WifiEvent::StartedStatus(false)), WifiAction::Configure);
    assert_eq!(link.step(WifiEvent::Configured(true)), WifiAction::Start);
    assert_eq!(link.step(WifiEvent::StartFinished(true)), WifiAction::Connect);
    assert_eq!(link.step(WifiEvent::ConnectFinished(true)), WifiAction::QueryState);
    assert_eq!(link.phase(), WifiPhase::CheckingState);
}

#[test]
fn wifi_started_controller_connects_directly() {
    let mut link = WifiLink::new("net", "pw");
    link.step(WifiEvent::State(false));
    assert_eq!(link.step(WifiEvent::StartedStatus(true)), WifiAction::Connect);
}

#[test]
fn wifi_unknown_start_state_configures() {
    let mut link = WifiLink::new("net", "pw");
    link.step(WifiEvent::State(false));
    assert_eq!(link.step(WifiEvent::StartedUnknown), WifiAction::Configure);
}

#[test]
fn wifi_drop_pauses_then_checks_started() {
    let mut link = WifiLink::new("net", "pw");
    assert_eq!(link.step(WifiEvent::State(true)), WifiAction::AwaitDisconnect);
    assert_eq!(link.step(WifiEvent::Disconnected), WifiAction::Wait(5000));
    assert_eq!(RECONNECT_DELAY_MS, 5000);
    assert_eq!(link.step(WifiEvent::TimerElapsed), WifiAction::QueryStarted);
}

#[test]
fn wifi_failed_connect_pauses() {
    let mut link = WifiLink::new("net", "pw");
    link.step(WifiEvent::State(false));
    link.step(WifiEvent::StartedStatus(true));
    assert_eq!(link.step(WifiEvent::ConnectFinished(false)), WifiAction::Wait(5000));
    assert_eq!(link.phase(), WifiPhase::PausingAfterFailure);
    assert_eq!(link.step(WifiEvent::State(true)), WifiAction::Wait(5000));
    assert_eq!(link.step(WifiEvent::TimerElapsed), WifiAction::QueryState);
}

#[test]
fn wifi_long_ssid_halts() {
    let ssid = "a".repeat(33);
    let mut link = WifiLink::new(&ssid, "pw");
    link.step(WifiEvent::State(false));
    assert_eq!(link.step(WifiEvent::StartedStatus(false)), WifiAction::Abort);
    assert_eq!(link.phase(), WifiPhase::Halted);
    assert_eq!(link.step(WifiEvent::TimerElapsed), WifiAction::Abort);
}

#[test]
fn wifi_credentials_at_capacity_fit() {
    let ssid = "a".repeat(32);
    let password = "b".repeat(64);
    let mut link = WifiLink::new(&ssid, &password);
    link.step(WifiEvent::State(false));
    assert_eq!(link.step(WifiEvent::StartedStatus(false)), WifiAction::Configure);
}

#[test]
fn wifi_long_password_halts() {
    let password = "b".repeat(65);
    let mut link = WifiLink::new("net", &password);
    link.step(WifiEvent::State(false));
    assert_eq!(link.step(WifiEvent::StartedStatus(false)), WifiAction::Abort);
}

#[test]
fn wifi_ssid_capacity_counts_bytes() {
    // 17 characters, 34 bytes in UTF-8.
    let ssid = "é".repeat(17);
    let mut link = WifiLink::new(&ssid, "pw");
    link.step(WifiEvent::State(false));
    assert_eq!(link.step(WifiEvent::StartedStatus(false)), WifiAction::Abort);
}

#[test]
fn wifi_refused_configuration_halts() {
    let mut link = WifiLink::new("net", "pw");
    link.step(WifiEvent::State(false));
    link.step(WifiEvent::StartedStatus(false));
    assert_eq!(link.step(WifiEvent::Configured(false)), WifiAction::Abort);
}

#[test]
fn wifi_failed_start_halts() {
    let mut link = WifiLink::new("net", "pw");
    link.step(WifiEvent::State(false));
    link.step(WifiEvent::StartedStatus(false));
    link.step(WifiEvent::Configured(true));
    assert_eq!(link.step(WifiEvent::StartFinished(false)), WifiAction::Abort);
}

#[test]
fn wifi_keeps_the_credentials() {
    let mut link = WifiLink::new("home-network", "hunter22");
    assert_eq!(link.ssid(), "home-network");
    assert_eq!(link.password(), "hunter22");
    link.step(WifiEvent::State(false));
    link.step(WifiEvent::StartedStatus(false));
    assert_eq!(link.ssid(), "home-network");
    assert_eq!(link.password(), "hunter22");
}

#[test]
fn wifi_reconnects_after_every_drop() {
    let mut link = WifiLink::new("net", "pw");
    let mut connects = 0;
    let mut action = link.pending();
    for round in 0..40 {
        let event = match action {
            WifiAction::QueryState => WifiEvent::State(round % 3 == 0),
            WifiAction::AwaitDisconnect => WifiEvent::Disconnected,
            WifiAction::Wait(_) => WifiEvent::TimerElapsed,
            WifiAction::QueryStarted => WifiEvent::StartedStatus(round % 2 == 0),
            WifiAction::Configure => WifiEvent::Configured(true),
            WifiAction::Start => WifiEvent::StartFinished(true),
            WifiAction::Connect => {
                connects += 1;
                WifiEvent::ConnectFinished(round % 4 != 0)
            }
            WifiAction::Abort => panic!("halted"),
        };
        action = link.step(event);
    }
    assert!(connects >= 40 / 8);
}
