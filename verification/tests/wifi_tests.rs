use esp32_mipidsi_clock::wifi::{
    EspEmbassyWifiController, WifiCommand, WifiEvent, WifiPhase, RETRY_MILLIS,
};

#[test]
fn station_is_started_and_connected() {
    assert_eq!(RETRY_MILLIS, 5000);
    let mut wifi = EspEmbassyWifiController::new();
    assert_eq!(wifi.phase(), WifiPhase::Connected);
    assert_eq!(wifi.connection(WifiEvent::Begin), WifiCommand::QueryConnected(0));
    assert_eq!(wifi.connection(WifiEvent::Connected(false)), WifiCommand::QueryStarted(0));
    assert_eq!(wifi.phase(), WifiPhase::Started);
    assert_eq!(wifi.connection(WifiEvent::Started(false)), WifiCommand::Start);
    assert_eq!(wifi.phase(), WifiPhase::Starting);
    assert_eq!(wifi.connection(WifiEvent::StartDone), WifiCommand::Connect);
    assert_eq!(wifi.phase(), WifiPhase::Connecting);
    assert_eq!(wifi.connection(WifiEvent::ConnectResult(true)), WifiCommand::QueryConnected(0));
    assert_eq!(wifi.phase(), WifiPhase::Connected);
}

#[test]
fn station_waits_for_the_loss_of_the_connection() {
    let mut wifi = EspEmbassyWifiController::new();
    assert_eq!(wifi.connection(WifiEvent::Connected(true)), WifiCommand::AwaitDisconnected);
    assert_eq!(wifi.phase(), WifiPhase::Disconnected);
    // After the loss it waits before it goes on; the radio is started already.
    assert_eq!(wifi.connection(WifiEvent::Disconnected), WifiCommand::QueryStarted(5000));
    assert_eq!(wifi.connection(WifiEvent::Started(true)), WifiCommand::Connect);
    assert_eq!(wifi.phase(), WifiPhase::Connecting);
}

#[test]
fn failed_attempt_is_made_again_after_a_wait() {
    let mut wifi = EspEmbassyWifiController::new();
    wifi.connection(WifiEvent::Connected(false));
    wifi.connection(WifiEvent::Started(true));
    for _ in 0..50 {
        assert_eq!(
            wifi.connection(WifiEvent::ConnectResult(false)),
            WifiCommand::QueryConnected(5000)
        );
        assert_eq!(wifi.connection(WifiEvent::Connected(false)), WifiCommand::QueryStarted(0));
        assert_eq!(wifi.connection(WifiEvent::Started(true)), WifiCommand::Connect);
    }
}

#[test]
fn unexpected_report_has_the_request_made_again() {
    let mut wifi = EspEmbassyWifiController::new();
    assert_eq!(wifi.connection(WifiEvent::StartDone), WifiCommand::QueryConnected(0));
    assert_eq!(wifi.connection(WifiEvent::ConnectResult(true)), WifiCommand::QueryConnected(0));
    wifi.connection(WifiEvent::Connected(true));
    assert_eq!(wifi.connection(WifiEvent::Connected(true)), WifiCommand::AwaitDisconnected);
    wifi.connection(WifiEvent::Disconnected);
    assert_eq!(wifi.connection(WifiEvent::Disconnected), WifiCommand::QueryStarted(0));
    wifi.connection(WifiEvent::Started(false));
    assert_eq!(wifi.connection(WifiEvent::Started(false)), WifiCommand::Start);
    wifi.connection(WifiEvent::StartDone);
    assert_eq!(wifi.connection(WifiEvent::Begin), WifiCommand::Connect);
    assert_eq!(wifi.phase(), WifiPhase::Connecting);
}
