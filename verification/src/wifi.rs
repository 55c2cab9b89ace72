//! The turns of the loop that keeps the station connected to the access point.

use vstd::prelude::*;

verus! {

/// Milliseconds to wait after the link was lost, and after a failed attempt to
/// connect.
pub const RETRY_MILLIS: u64 = 5000;

/// The answer that the loop waits for.
#[derive(Clone, Copy, Debug, PartialEq, Eq, Structural)]
pub enum WifiPhase {
    /// Whether the station is connected.
    Connected,
    /// The loss of the connection.
    Disconnected,
    /// Whether the radio is started.
    Started,
    /// The end of the radio's start.
    Starting,
    /// The outcome of an attempt to connect.
    Connecting,
}

/// What the caller reports to the loop.
#[derive(Clone, Copy, Debug, PartialEq, Eq, Structural)]
pub enum WifiEvent {
    /// The loop starts.
    Begin,
    /// Whether the station is connected.
    Connected(bool),
    /// The connection was lost.
    Disconnected,
    /// Whether the radio is started.
    Started(bool),
    /// The radio was configured and has started.
    StartDone,
    /// Whether the attempt to connect succeeded.
    ConnectResult(bool),
}

/// What the loop has the caller do next. Each number is the time to wait
/// first, in milliseconds.
#[derive(Clone, Copy, Debug, PartialEq, Eq, Structural)]
pub enum WifiCommand {
    /// Report whether the station is connected.
    QueryConnected(u64),
    /// Wait until the connection is lost, and report it.
    AwaitDisconnected,
    /// Report whether the radio is started.
    QueryStarted(u64),
    /// Configure the station, start the radio, and report it.
    Start,
    /// Try to connect, and report the outcome.
    Connect,
}

/// The request that a phase stands for, made again without delay.
pub open spec fn request_of(phase: WifiPhase) -> WifiCommand {
    match phase {
        WifiPhase::Connected => WifiCommand::QueryConnected(0),
        WifiPhase::Disconnected => WifiCommand::AwaitDisconnected,
        WifiPhase::Started => WifiCommand::QueryStarted(0),
        WifiPhase::Starting => WifiCommand::Start,
        WifiPhase::Connecting => WifiCommand::Connect,
    }
}

/// The phase and the command after an event. While the station is connected
/// the loop waits for the loss of the connection, and then for the retry time.
/// It starts the radio where it is not started, and tries to connect; after a
/// failure it waits for the retry time. Then it begins again. An event that the
/// phase does not wait for changes nothing and has the phase's request made
/// again.
pub open spec fn wifi_next(phase: WifiPhase, event: WifiEvent) -> (WifiPhase, WifiCommand) {
    match (phase, event) {
        (WifiPhase::Connected, WifiEvent::Connected(true)) => (
            WifiPhase::Disconnected,
            WifiCommand::AwaitDisconnected,
        ),
        (WifiPhase::Connected, WifiEvent::Connected(false)) => (
            WifiPhase::Started,
            WifiCommand::QueryStarted(0),
        ),
        (WifiPhase::Disconnected, WifiEvent::Disconnected) => (
            WifiPhase::Started,
            WifiCommand::QueryStarted(RETRY_MILLIS),
        ),
        (WifiPhase::Started, WifiEvent::Started(true)) => (
            WifiPhase::Connecting,
            WifiCommand::Connect,
        ),
        (WifiPhase::Started, WifiEvent::Started(false)) => (
            WifiPhase::Starting,
            WifiCommand::Start,
        ),
        (WifiPhase::Starting, WifiEvent::StartDone) => (
            WifiPhase::Connecting,
            WifiCommand::Connect,
        ),
        (WifiPhase::Connecting, WifiEvent::ConnectResult(true)) => (
            WifiPhase::Connected,
            WifiCommand::QueryConnected(0),
        ),
        (WifiPhase::Connecting, WifiEvent::ConnectResult(false)) => (
            WifiPhase::Connected,
            WifiCommand::QueryConnected(RETRY_MILLIS),
        ),
        _ => (phase, request_of(phase)),
    }
}

/// The loop that keeps the station connected.
pub struct EspEmbassyWifiController {
    phase: WifiPhase,
}

impl View for EspEmbassyWifiController {
    type V = WifiPhase;

    closed spec fn view(&self) -> WifiPhase {
        self.phase
    }
}

impl EspEmbassyWifiController {
    /// A loop that is about to ask whether the station is connected.
    pub fn new() -> (controller: EspEmbassyWifiController)
        ensures
            controller@ == WifiPhase::Connected,
    {
        EspEmbassyWifiController { phase: WifiPhase::Connected }
    }

    /// The answer that the loop waits for.
    pub fn phase(&self) -> (phase: WifiPhase)
        ensures
            phase == self@,
    {
        self.phase
    }

    /// One turn of the loop: takes what the caller reports and tells what to
    /// do next.
    pub fn connection(&mut self, event: WifiEvent) -> (command: WifiCommand)
        ensures
            (final(self)@, command) == wifi_next(old(self)@, event),
    {
        let (phase, command) = match (self.phase, event) {
            (WifiPhase::Connected, WifiEvent::Connected(true)) => (
                WifiPhase::Disconnected,
                WifiCommand::AwaitDisconnected,
            ),
            (WifiPhase::Connected, WifiEvent::Connected(false)) => (
                WifiPhase::Started,
                WifiCommand::QueryStarted(0),
            ),
            (WifiPhase::Disconnected, WifiEvent::Disconnected) => (
                WifiPhase::Started,
                WifiCommand::QueryStarted(RETRY_MILLIS),
            ),
            (WifiPhase::Started, WifiEvent::Started(true)) => (
                WifiPhase::Connecting,
                WifiCommand::Connect,
            ),
            (WifiPhase::Started, WifiEvent::Started(false)) => (
                WifiPhase::Starting,
                WifiCommand::Start,
            ),
            (WifiPhase::Starting, WifiEvent::StartDone) => (
                WifiPhase::Connecting,
                WifiCommand::Connect,
            ),
            (WifiPhase::Connecting, WifiEvent::ConnectResult(true)) => (
                WifiPhase::Connected,
                WifiCommand::QueryConnected(0),
            ),
            (WifiPhase::Connecting, WifiEvent::ConnectResult(false)) => (
                WifiPhase::Connected,
                WifiCommand::QueryConnected(RETRY_MILLIS),
            ),
            (WifiPhase::Connected, _) => (WifiPhase::Connected, WifiCommand::QueryConnected(0)),
            (WifiPhase::Disconnected, _) => (
                WifiPhase::Disconnected,
                WifiCommand::AwaitDisconnected,
            ),
            (WifiPhase::Started, _) => (WifiPhase::Started, WifiCommand::QueryStarted(0)),
            (WifiPhase::Starting, _) => (WifiPhase::Starting, WifiCommand::Start),
            (WifiPhase::Connecting, _) => (WifiPhase::Connecting, WifiCommand::Connect),
        };
        self.phase = phase;
        command
    }
}

} // verus!
