//! The Wi-Fi task: keep the station connected, reconnecting after a drop.
//!
//! The task is a state machine. Its owner performs each action on the Wi-Fi
//! controller (or waits on a timer) and hands back what came of it.

use vstd::prelude::*;
use vstd::string::StringSliceAdditionalSpecFns;

verus! {

/// The most bytes an SSID can have in the controller's client configuration.
pub const SSID_CAPACITY: usize = 32;

/// The most bytes a password can have in the controller's client configuration.
pub const PASSWORD_CAPACITY: usize = 64;

/// How long the task waits after a drop or after a failed attempt, in milliseconds.
pub const RECONNECT_DELAY_MS: u64 = 5000;

/// Where the Wi-Fi task stands.
#[derive(Clone, Copy, Debug, PartialEq, Eq, Structural)]
pub enum WifiPhase {
    /// Asking the driver whether the station is connected.
    CheckingState,
    /// Connected; waiting for the station to be disconnected.
    AwaitingDisconnect,
    /// Pausing after a disconnection.
    PausingAfterDrop,
    /// Asking the controller whether it is started.
    CheckingStarted,
    /// Handing the client configuration to the controller.
    Configuring,
    /// Starting the controller.
    Starting,
    /// Connecting to the access point.
    Connecting,
    /// Pausing after a failed connection attempt.
    PausingAfterFailure,
    /// Stopped for good: the configuration could not be built or applied, or
    /// the controller would not start.
    Halted,
}

/// What came of the last action.
#[derive(Clone, Copy, Debug, PartialEq, Eq, Structural)]
pub enum WifiEvent {
    /// The driver reports the station as connected (`true`) or not.
    State(bool),
    /// The station was disconnected.
    Disconnected,
    /// A pause is over.
    TimerElapsed,
    /// The controller answered whether it is started.
    StartedStatus(bool),
    /// The controller could not say whether it is started.
    StartedUnknown,
    /// The configuration was applied (`true`) or refused.
    Configured(bool),
    /// The controller started (`true`) or failed to.
    StartFinished(bool),
    /// The connection attempt succeeded (`true`) or failed.
    ConnectFinished(bool),
}

/// What the task does next.
#[derive(Clone, Copy, Debug, PartialEq, Eq, Structural)]
pub enum WifiAction {
    /// Ask the driver for the station's state.
    QueryState,
    /// Wait for the station to be disconnected.
    AwaitDisconnect,
    /// Wait this many milliseconds.
    Wait(u64),
    /// Ask the controller whether it is started.
    QueryStarted,
    /// Apply the client configuration built from the SSID and the password that
    /// the task holds ([`WifiLink::ssid`], [`WifiLink::password`]).
    Configure,
    /// Start the controller.
    Start,
    /// Connect to the access point.
    Connect,
    /// Stop: the task cannot go on.
    Abort,
}

/// The Wi-Fi task: its phase, the SSID and the password of the network, and
/// whether they fit the client configuration.
pub struct WifiLink {
    phase: WifiPhase,
    credentials_fit: bool,
    ssid: String,
    password: String,
}

/// The Wi-Fi task as its phase, whether the credentials fit the client
/// configuration, and the SSID and the password.
pub struct WifiLinkView {
    pub phase: WifiPhase,
    pub fit: bool,
    pub ssid: Seq<char>,
    pub password: Seq<char>,
}

/// Whether an SSID and a password of these UTF-8 encodings fit the client
/// configuration.
pub open spec fn credentials_fit(ssid: Seq<u8>, password: Seq<u8>) -> bool {
    ssid.len() <= SSID_CAPACITY && password.len() <= PASSWORD_CAPACITY
}

/// The action that a task in `phase` is waiting on.
pub open spec fn wifi_pending(phase: WifiPhase) -> WifiAction {
    match phase {
        WifiPhase::CheckingState => WifiAction::QueryState,
        WifiPhase::AwaitingDisconnect => WifiAction::AwaitDisconnect,
        WifiPhase::PausingAfterDrop => WifiAction::Wait(RECONNECT_DELAY_MS as u64),
        WifiPhase::CheckingStarted => WifiAction::QueryStarted,
        WifiPhase::Configuring => WifiAction::Configure,
        WifiPhase::Starting => WifiAction::Start,
        WifiPhase::Connecting => WifiAction::Connect,
        WifiPhase::PausingAfterFailure => WifiAction::Wait(RECONNECT_DELAY_MS as u64),
        WifiPhase::Halted => WifiAction::Abort,
    }
}

/// The task's transitions, with `fit` telling whether the credentials fit the
/// client configuration. While connected the task waits for a drop and then
/// pauses; it configures and starts the controller only when the controller
/// does not report itself started; a failed connection attempt is followed by a
/// pause; a success goes back to checking the state. A configuration that
/// cannot be built or applied, or a controller that fails to start, halts the
/// task. An event that does not answer the pending action leaves the task where
/// it was, still waiting on it.
pub open spec fn wifi_next(phase: WifiPhase, fit: bool, event: WifiEvent) -> (WifiPhase, WifiAction) {
    match (phase, event) {
        (WifiPhase::CheckingState, WifiEvent::State(connected)) => if connected {
            (WifiPhase::AwaitingDisconnect, WifiAction::AwaitDisconnect)
        } else {
            (WifiPhase::CheckingStarted, WifiAction::QueryStarted)
        },
        (WifiPhase::AwaitingDisconnect, WifiEvent::Disconnected) => (
            WifiPhase::PausingAfterDrop,
            WifiAction::Wait(RECONNECT_DELAY_MS as u64),
        ),
        (WifiPhase::PausingAfterDrop, WifiEvent::TimerElapsed) => (
            WifiPhase::CheckingStarted,
            WifiAction::QueryStarted,
        ),
        (WifiPhase::CheckingStarted, WifiEvent::StartedStatus(true)) => (
            WifiPhase::Connecting,
            WifiAction::Connect,
        ),
        (WifiPhase::CheckingStarted, WifiEvent::StartedStatus(false))
        | (WifiPhase::CheckingStarted, WifiEvent::StartedUnknown) => if fit {
            (WifiPhase::Configuring, WifiAction::Configure)
        } else {
            (WifiPhase::Halted, WifiAction::Abort)
        },
        (WifiPhase::Configuring, WifiEvent::Configured(ok)) => if ok {
            (WifiPhase::Starting, WifiAction::Start)
        } else {
            (WifiPhase::Halted, WifiAction::Abort)
        },
        (WifiPhase::Starting, WifiEvent::StartFinished(ok)) => if ok {
            (WifiPhase::Connecting, WifiAction::Connect)
        } else {
            (WifiPhase::Halted, WifiAction::Abort)
        },
        (WifiPhase::Connecting, WifiEvent::ConnectFinished(ok)) => if ok {
            (WifiPhase::CheckingState, WifiAction::QueryState)
        } else {
            (WifiPhase::PausingAfterFailure, WifiAction::Wait(RECONNECT_DELAY_MS as u64))
        },
        (WifiPhase::PausingAfterFailure, WifiEvent::TimerElapsed) => (
            WifiPhase::CheckingState,
            WifiAction::QueryState,
        ),
        _ => (phase, wifi_pending(phase)),
    }
}

impl View for WifiLink {
    type V = WifiLinkView;

    closed spec fn view(&self) -> WifiLinkView {
        WifiLinkView {
            phase: self.phase,
            fit: self.credentials_fit,
            ssid: self.ssid@,
            password: self.password@,
        }
    }
}

impl WifiLink {
    /// A task for this SSID and password, about to ask for the station's state.
    pub fn new(ssid: &str, password: &str) -> (r: WifiLink)
        ensures
            r@.phase == WifiPhase::CheckingState,
            r@.fit == credentials_fit(ssid.spec_bytes(), password.spec_bytes()),
            r@.ssid == ssid@,
            r@.password == password@,
    {
        let fit = ssid.as_bytes().len() <= SSID_CAPACITY && password.as_bytes().len()
            <= PASSWORD_CAPACITY;
        WifiLink {
            phase: WifiPhase::CheckingState,
            credentials_fit: fit,
            ssid: ssid.to_owned(),
            password: password.to_owned(),
        }
    }

    /// The task's phase.
    pub fn phase(&self) -> (p: WifiPhase)
        ensures
            p == self@.phase,
    {
        self.phase
    }

    /// The SSID that the client configuration is built from.
    pub fn ssid(&self) -> (s: &str)
        ensures
            s@ == self@.ssid,
    {
        self.ssid.as_str()
    }

    /// The password that the client configuration is built from.
    pub fn password(&self) -> (s: &str)
        ensures
            s@ == self@.password,
    {
        self.password.as_str()
    }

    /// The action the task is waiting on.
    pub fn pending(&self) -> (a: WifiAction)
        ensures
            a == wifi_pending(self@.phase),
    {
        match self.phase {
            WifiPhase::CheckingState => WifiAction::QueryState,
            WifiPhase::AwaitingDisconnect => WifiAction::AwaitDisconnect,
            WifiPhase::PausingAfterDrop => WifiAction::Wait(RECONNECT_DELAY_MS),
            WifiPhase::CheckingStarted => WifiAction::QueryStarted,
            WifiPhase::Configuring => WifiAction::Configure,
            WifiPhase::Starting => WifiAction::Start,
            WifiPhase::Connecting => WifiAction::Connect,
            WifiPhase::PausingAfterFailure => WifiAction::Wait(RECONNECT_DELAY_MS),
            WifiPhase::Halted => WifiAction::Abort,
        }
    }

    /// Takes the outcome of the pending action and returns the next action.
    pub fn step(&mut self, event: WifiEvent) -> (a: WifiAction)
        ensures
            final(self)@.fit == old(self)@.fit,
            final(self)@.ssid == old(self)@.ssid,
            final(self)@.password == old(self)@.password,
            (final(self)@.phase, a) == wifi_next(old(self)@.phase, old(self)@.fit, event),
    {
        let phase = self.phase;
        let (next, action) = match (phase, event) {
            (WifiPhase::CheckingState, WifiEvent::State(connected)) => if connected {
                (WifiPhase::AwaitingDisconnect, WifiAction::AwaitDisconnect)
            } else {
                (WifiPhase::CheckingStarted, WifiAction::QueryStarted)
            },
            (WifiPhase::AwaitingDisconnect, WifiEvent::Disconnected) => (
                WifiPhase::PausingAfterDrop,
                WifiAction::Wait(RECONNECT_DELAY_MS),
            ),
            (WifiPhase::PausingAfterDrop, WifiEvent::TimerElapsed) => (
                WifiPhase::CheckingStarted,
                WifiAction::QueryStarted,
            ),
            (WifiPhase::CheckingStarted, WifiEvent::StartedStatus(true)) => (
                WifiPhase::Connecting,
                WifiAction::Connect,
            ),
            (WifiPhase::CheckingStarted, WifiEvent::StartedStatus(false))
            | (WifiPhase::CheckingStarted, WifiEvent::StartedUnknown) => if self.credentials_fit {
                (WifiPhase::Configuring, WifiAction::Configure)
            } else {
                (WifiPhase::Halted, WifiAction::Abort)
            },
            (WifiPhase::Configuring, WifiEvent::Configured(ok)) => if ok {
                (WifiPhase::Starting, WifiAction::Start)
            } else {
                (WifiPhase::Halted, WifiAction::Abort)
            },
            (WifiPhase::Starting, WifiEvent::StartFinished(ok)) => if ok {
                (WifiPhase::Connecting, WifiAction::Connect)
            } else {
                (WifiPhase::Halted, WifiAction::Abort)
            },
            (WifiPhase::Connecting, WifiEvent::ConnectFinished(ok)) => if ok {
                (WifiPhase::CheckingState, WifiAction::QueryState)
            } else {
                (WifiPhase::PausingAfterFailure, WifiAction::Wait(RECONNECT_DELAY_MS))
            },
            (WifiPhase::PausingAfterFailure, WifiEvent::TimerElapsed) => (
                WifiPhase::CheckingState,
                WifiAction::QueryState,
            ),
            _ => (phase, self.pending()),
        };
        self.phase = next;
        action
    }
}

} // verus!
