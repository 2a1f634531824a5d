//! The uplink task: wait for the network, find and connect to the MQTT
//! broker, start the sensor tasks, then publish every packet the sensor tasks
//! queue.
//!
//! The task is a state machine. Its owner performs each action on the network
//! stack, the MQTT client, the queue or a timer, and hands back what came of it.

use vstd::prelude::*;

use crate::packet::{message_count, messages, payloads, publication_at, Publication, PublicationView, PubPacket};

verus! {

/// Host name of the MQTT broker.
pub const BROKER_HOST: &'static str = "broker.emqx.io";

/// TCP port of the MQTT broker.
pub const BROKER_PORT: u16 = 1883;

/// How long to wait between two checks of the link or of the address, in milliseconds.
pub const NETWORK_POLL_MS: u64 = 500;

/// How long to rest after handling a packet, in milliseconds.
pub const PUBLISH_PAUSE_MS: u64 = 400;

/// Inactivity timeout of the broker socket, in seconds.
pub const SOCKET_TIMEOUT_SECS: u64 = 10;

/// Size of each of the socket's receive and transmit buffers, in bytes.
pub const SOCKET_BUFFER_LEN: usize = 4096;

/// Size of each of the MQTT client's read and write buffers, in bytes.
pub const MQTT_BUFFER_LEN: usize = 225;

/// Seed of the counter that numbers the MQTT client's packets.
pub const MQTT_PACKET_ID_SEED: u64 = 20000;

/// Where the uplink task stands.
#[derive(Clone, Copy, Debug)]
pub enum UplinkTask {
    /// Waiting for the network link to come up.
    AwaitingLink,
    /// Waiting for DHCP to assign an IPv4 address.
    AwaitingAddress,
    /// Looking up the broker's address.
    ResolvingBroker,
    /// Opening a TCP connection to the broker at this IPv4 address.
    ConnectingSocket([u8; 4]),
    /// Opening the MQTT session.
    ConnectingBroker,
    /// Starting the sensor tasks.
    StartingSensors,
    /// Waiting for a packet on the queue.
    AwaitingPacket,
    /// Sending message number `.1` of packet `.0`.
    Publishing(PubPacket, usize),
    /// Resting after a packet; `true` when messages were sent for it.
    Resting(bool),
    /// Stopped for good: a message could not be sent.
    Halted,
}

/// What came of the last action.
#[derive(Clone, Copy, Debug)]
pub enum UplinkEvent {
    /// The link is up (`true`) or not yet.
    LinkStatus(bool),
    /// An address has been assigned (`true`) or not yet.
    AddressStatus(bool),
    /// The broker's first IPv4 address, or a failed lookup.
    BrokerLookup(Result<[u8; 4], ()>),
    /// The TCP connection was made (`true`) or failed.
    SocketConnected(bool),
    /// The MQTT session was opened (`true`) or failed.
    BrokerConnected(bool),
    /// The sensor tasks were started.
    SensorsStarted,
    /// A packet came off the queue.
    Received(PubPacket),
    /// The message was sent (`true`) or failed.
    Sent(bool),
    /// A wait is over.
    TimerElapsed,
}

/// What the task does next.
#[derive(Debug)]
pub enum UplinkAction {
    /// Ask whether the link is up.
    CheckLink,
    /// Ask whether an address has been assigned.
    CheckAddress,
    /// Wait this many milliseconds.
    Wait(u64),
    /// Look up the IPv4 address of [`BROKER_HOST`].
    LookupBroker,
    /// Open a TCP connection to this address and port.
    ConnectSocket { address: [u8; 4], port: u16 },
    /// Open the MQTT session over the socket.
    ConnectBroker,
    /// Start the temperature and flame tasks.
    StartSensors,
    /// Take the next packet off the queue, waiting for one.
    Receive,
    /// Send this message.
    Publish(Publication),
    /// Rest [`PUBLISH_PAUSE_MS`]; `announce` tells whether messages were just sent.
    Rest { announce: bool },
    /// Stop: the task cannot go on.
    Abort,
}

/// An action, with a message to send seen through its view.
pub enum UplinkActionView {
    CheckLink,
    CheckAddress,
    Wait(u64),
    LookupBroker,
    ConnectSocket { address: [u8; 4], port: u16 },
    ConnectBroker,
    StartSensors,
    Receive,
    Publish(PublicationView),
    Rest { announce: bool },
    Abort,
}

impl View for UplinkAction {
    type V = UplinkActionView;

    open spec fn view(&self) -> UplinkActionView {
        match self {
            UplinkAction::CheckLink => UplinkActionView::CheckLink,
            UplinkAction::CheckAddress => UplinkActionView::CheckAddress,
            UplinkAction::Wait(ms) => UplinkActionView::Wait(*ms),
            UplinkAction::LookupBroker => UplinkActionView::LookupBroker,
            UplinkAction::ConnectSocket { address, port } => UplinkActionView::ConnectSocket {
                address: *address,
                port: *port,
            },
            UplinkAction::ConnectBroker => UplinkActionView::ConnectBroker,
            UplinkAction::StartSensors => UplinkActionView::StartSensors,
            UplinkAction::Receive => UplinkActionView::Receive,
            UplinkAction::Publish(m) => UplinkActionView::Publish(m@),
            UplinkAction::Rest { announce } => UplinkActionView::Rest { announce: *announce },
            UplinkAction::Abort => UplinkActionView::Abort,
        }
    }
}

/// The action that a task in `task` is waiting on.
pub open spec fn uplink_pending(task: UplinkTask) -> UplinkActionView {
    match task {
        UplinkTask::AwaitingLink => UplinkActionView::CheckLink,
        UplinkTask::AwaitingAddress => UplinkActionView::CheckAddress,
        UplinkTask::ResolvingBroker => UplinkActionView::LookupBroker,
        UplinkTask::ConnectingSocket(address) => UplinkActionView::ConnectSocket {
            address,
            port: BROKER_PORT,
        },
        UplinkTask::ConnectingBroker => UplinkActionView::ConnectBroker,
        UplinkTask::StartingSensors => UplinkActionView::StartSensors,
        UplinkTask::AwaitingPacket => UplinkActionView::Receive,
        UplinkTask::Publishing(p, k) => if k < payloads(p).len() {
            UplinkActionView::Publish(messages(p)[k as int])
        } else {
            UplinkActionView::Rest { announce: true }
        },
        UplinkTask::Resting(announce) => UplinkActionView::Rest { announce },
        UplinkTask::Halted => UplinkActionView::Abort,
    }
}

/// What follows the sending of message `k` of `p`: the next message, or a rest
/// once the last one is out.
pub open spec fn after_sent(p: PubPacket, k: usize) -> (UplinkTask, UplinkActionView) {
    if k + 1 < payloads(p).len() {
        (UplinkTask::Publishing(p, (k + 1) as usize), UplinkActionView::Publish(messages(p)[k + 1]))
    } else {
        (UplinkTask::Resting(true), UplinkActionView::Rest { announce: true })
    }
}

/// The task's transitions. The link and then the address are polled every
/// [`NETWORK_POLL_MS`]; a failed broker lookup is retried at once; a failed
/// TCP or MQTT connection does not stop the start-up. A packet off the queue is
/// published message by message in the order of [`messages`], then the task
/// rests; a packet with no message goes straight to the rest. A failed send
/// halts the task. An event that does not answer the pending action leaves the
/// task where it was, still waiting on it.
pub open spec fn uplink_next(task: UplinkTask, event: UplinkEvent) -> (UplinkTask, UplinkActionView) {
    match (task, event) {
        (UplinkTask::AwaitingLink, UplinkEvent::LinkStatus(up)) => if up {
            (UplinkTask::AwaitingAddress, UplinkActionView::CheckAddress)
        } else {
            (UplinkTask::AwaitingLink, UplinkActionView::Wait(NETWORK_POLL_MS as u64))
        },
        (UplinkTask::AwaitingLink, UplinkEvent::TimerElapsed) => (
            UplinkTask::AwaitingLink,
            UplinkActionView::CheckLink,
        ),
        (UplinkTask::AwaitingAddress, UplinkEvent::AddressStatus(assigned)) => if assigned {
            (UplinkTask::ResolvingBroker, UplinkActionView::LookupBroker)
        } else {
            (UplinkTask::AwaitingAddress, UplinkActionView::Wait(NETWORK_POLL_MS as u64))
        },
        (UplinkTask::AwaitingAddress, UplinkEvent::TimerElapsed) => (
            UplinkTask::AwaitingAddress,
            UplinkActionView::CheckAddress,
        ),
        (UplinkTask::ResolvingBroker, UplinkEvent::BrokerLookup(found)) => match found {
            Ok(address) => (
                UplinkTask::ConnectingSocket(address),
                UplinkActionView::ConnectSocket { address, port: BROKER_PORT },
            ),
            Err(_) => (UplinkTask::ResolvingBroker, UplinkActionView::LookupBroker),
        },
        (UplinkTask::ConnectingSocket(_), UplinkEvent::SocketConnected(_)) => (
            UplinkTask::ConnectingBroker,
            UplinkActionView::ConnectBroker,
        ),
        (UplinkTask::ConnectingBroker, UplinkEvent::BrokerConnected(_)) => (
            UplinkTask::StartingSensors,
            UplinkActionView::StartSensors,
        ),
        (UplinkTask::StartingSensors, UplinkEvent::SensorsStarted) => (
            UplinkTask::AwaitingPacket,
            UplinkActionView::Receive,
        ),
        (UplinkTask::AwaitingPacket, UplinkEvent::Received(p)) => if payloads(p).len() == 0 {
            (UplinkTask::Resting(false), UplinkActionView::Rest { announce: false })
        } else {
            (UplinkTask::Publishing(p, 0), UplinkActionView::Publish(messages(p)[0]))
        },
        (UplinkTask::Publishing(p, k), UplinkEvent::Sent(ok)) => if ok {
            after_sent(p, k)
        } else {
            (UplinkTask::Halted, UplinkActionView::Abort)
        },
        (UplinkTask::Resting(_), UplinkEvent::TimerElapsed) => (
            UplinkTask::AwaitingPacket,
            UplinkActionView::Receive,
        ),
        _ => (task, uplink_pending(task)),
    }
}

impl UplinkTask {
    /// A task about to check the link.
    pub fn new() -> (r: UplinkTask)
        ensures
            r == UplinkTask::AwaitingLink,
    {
        UplinkTask::AwaitingLink
    }

    /// The action the task is waiting on.
    pub fn pending(&self) -> (a: UplinkAction)
        ensures
            a@ == uplink_pending(*self),
    {
        match self {
            UplinkTask::AwaitingLink => UplinkAction::CheckLink,
            UplinkTask::AwaitingAddress => UplinkAction::CheckAddress,
            UplinkTask::ResolvingBroker => UplinkAction::LookupBroker,
            UplinkTask::ConnectingSocket(address) => UplinkAction::ConnectSocket {
                address: *address,
                port: BROKER_PORT,
            },
            UplinkTask::ConnectingBroker => UplinkAction::ConnectBroker,
            UplinkTask::StartingSensors => UplinkAction::StartSensors,
            UplinkTask::AwaitingPacket => UplinkAction::Receive,
            UplinkTask::Publishing(p, k) => if *k < message_count(p) {
                UplinkAction::Publish(publication_at(p, *k))
            } else {
                UplinkAction::Rest { announce: true }
            },
            UplinkTask::Resting(announce) => UplinkAction::Rest { announce: *announce },
            UplinkTask::Halted => UplinkAction::Abort,
        }
    }

    /// Takes the outcome of the pending action and returns the next action.
    pub fn step(&mut self, event: UplinkEvent) -> (a: UplinkAction)
        ensures
            (*final(self), a@) == uplink_next(*old(self), event),
    {
        let task = *self;
        let (next, action) = match (task, event) {
            (UplinkTask::AwaitingLink, UplinkEvent::LinkStatus(up)) => if up {
                (UplinkTask::AwaitingAddress, UplinkAction::CheckAddress)
            } else {
                (UplinkTask::AwaitingLink, UplinkAction::Wait(NETWORK_POLL_MS))
            },
            (UplinkTask::AwaitingLink, UplinkEvent::TimerElapsed) => (
                UplinkTask::AwaitingLink,
                UplinkAction::CheckLink,
            ),
            (UplinkTask::AwaitingAddress, UplinkEvent::AddressStatus(assigned)) => if assigned {
                (UplinkTask::ResolvingBroker, UplinkAction::LookupBroker)
            } else {
                (UplinkTask::AwaitingAddress, UplinkAction::Wait(NETWORK_POLL_MS))
            },
            (UplinkTask::AwaitingAddress, UplinkEvent::TimerElapsed) => (
                UplinkTask::AwaitingAddress,
                UplinkAction::CheckAddress,
            ),
            (UplinkTask::ResolvingBroker, UplinkEvent::BrokerLookup(found)) => match found {
                Ok(address) => (
                    UplinkTask::ConnectingSocket(address),
                    UplinkAction::ConnectSocket { address, port: BROKER_PORT },
                ),
                Err(()) => (UplinkTask::ResolvingBroker, UplinkAction::LookupBroker),
            },
            (UplinkTask::ConnectingSocket(_), UplinkEvent::SocketConnected(_)) => (
                UplinkTask::ConnectingBroker,
                UplinkAction::ConnectBroker,
            ),
            (UplinkTask::ConnectingBroker, UplinkEvent::BrokerConnected(_)) => (
                UplinkTask::StartingSensors,
                UplinkAction::StartSensors,
            ),
            (UplinkTask::StartingSensors, UplinkEvent::SensorsStarted) => (
                UplinkTask::AwaitingPacket,
                UplinkAction::Receive,
            ),
            (UplinkTask::AwaitingPacket, UplinkEvent::Received(p)) => if message_count(&p) == 0 {
                (UplinkTask::Resting(false), UplinkAction::Rest { announce: false })
            } else {
                (UplinkTask::Publishing(p, 0), UplinkAction::Publish(publication_at(&p, 0)))
            },
            (UplinkTask::Publishing(p, k), UplinkEvent::Sent(ok)) => if ok {
                let n = message_count(&p);
                if k < n && k + 1 < n {
                    (UplinkTask::Publishing(p, k + 1), UplinkAction::Publish(publication_at(&p, k + 1)))
                } else {
                    (UplinkTask::Resting(true), UplinkAction::Rest { announce: true })
                }
            } else {
                (UplinkTask::Halted, UplinkAction::Abort)
            },
            (UplinkTask::Resting(_), UplinkEvent::TimerElapsed) => (
                UplinkTask::AwaitingPacket,
                UplinkAction::Receive,
            ),
            _ => (task, task.pending()),
        };
        *self = next;
        action
    }
}

} // verus!
