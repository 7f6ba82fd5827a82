//! The protocol state machine: from a state and a signal to the next state
//! and the actions that the embedding program is to perform.

use vstd::prelude::*;
use crate::codec::{EnvelopeKind, Outbound, SubscriptionResponse};
use crate::json::Json;
use crate::keepalive::KeepaliveMonitor;

verus! {

/// The delay, in milliseconds, between the acknowledgement and the `start`
/// envelope.
pub const START_DELAY_MS: u64 = 100;

/// Where a session stands in the handshake and subscription lifecycle.
#[derive(Debug, Clone, Copy, PartialEq, Eq, Structural)]
pub enum ProtocolState {
    Idle,
    AwaitingAck,
    StartingSubscription,
    Active,
    Closing,
    Closed,
}

/// A failure of the session, handed to the caller's handler.
#[derive(Debug, PartialEq, Eq)]
pub enum Failure {
    /// The server sent an `error` envelope.
    Subscription(Option<Json>),
    /// The server sent a `connection_error` envelope.
    Connection(Option<Json>),
    /// No keepalive arrived within the announced timeout.
    ConnectionLost,
    /// The transport could not be established or broke down.
    Transport,
    /// A write on the transport failed.
    Write,
}

/// What happened, as the machine sees it.
#[derive(Debug, PartialEq, Eq)]
pub enum Signal {
    /// The transport is open; the session starts at the given time.
    Started(u64),
    /// A `connection_ack` arrived, with the timeout it announces, if any.
    Ack(Option<u64>),
    /// A `start_ack` arrived.
    StartAck,
    /// A `data` envelope arrived.
    Data(Option<Json>),
    /// An `error` envelope arrived.
    ServerError(Option<Json>),
    /// A `connection_error` envelope arrived.
    ConnectionError(Option<Json>),
    /// A keepalive arrived at the given time.
    Keepalive(u64),
    /// A frame without meaning here: unparsed, binary, or of another kind.
    Ignored,
    /// The delay after the acknowledgement is over.
    StartDelayElapsed,
    /// The periodic liveness check, at the given time.
    Tick(u64),
    /// The caller asks to close, or the session is being torn down.
    Close,
    /// The `stop` envelope has been written.
    StopWritten,
    /// The transport could not be established or broke down.
    TransportFailed,
    /// A write on the transport failed.
    WriteFailed,
}

/// What the embedding program is to do.
#[derive(Debug, PartialEq, Eq)]
pub enum Action {
    /// Write this envelope on the transport.
    Send(Outbound),
    /// Wait this many milliseconds, then report `StartDelayElapsed`.
    ScheduleStart(u64),
    /// Hand this payload to the handler.
    Deliver(Json),
    /// Hand this failure to the handler.
    Fail(Failure),
    /// Cancel the read loop and the liveness check, release the transport.
    Shutdown,
}

/// The state of one session's protocol.
#[derive(Debug, Clone, Copy, PartialEq, Eq, Structural)]
pub struct Machine {
    pub state: ProtocolState,
    /// Whether the `start` envelope has been handed out for writing.
    pub start_sent: bool,
    pub keepalive: KeepaliveMonitor,
}

/// The timeout that an acknowledgement's payload announces: its member
/// `connectionTimeoutMs`, where that is an unsigned integer.
pub open spec fn timeout_hint(payload: Option<Json>) -> Option<u64> {
    match payload {
        Some(json) => match json.member("connectionTimeoutMs"@) {
            Some(value) => value.unsigned(),
            None => None,
        },
        None => None,
    }
}

/// The signal that a decoded frame, received at `now_ms`, gives.
pub open spec fn signal_for(frame: Option<SubscriptionResponse>, now_ms: u64) -> Signal {
    match frame {
        None => Signal::Ignored,
        Some(envelope) => match envelope.spec_kind() {
            EnvelopeKind::ConnectionAck => Signal::Ack(timeout_hint(envelope.payload)),
            EnvelopeKind::StartAck => Signal::StartAck,
            EnvelopeKind::Data => Signal::Data(envelope.payload),
            EnvelopeKind::Error => Signal::ServerError(envelope.payload),
            EnvelopeKind::ConnectionError => Signal::ConnectionError(envelope.payload),
            EnvelopeKind::Keepalive => Signal::Keepalive(now_ms),
            _ => Signal::Ignored,
        },
    }
}

impl Machine {
    /// The machine of a session that has not started.
    pub open spec fn initial() -> Machine {
        Machine {
            state: ProtocolState::Idle,
            start_sent: false,
            keepalive: KeepaliveMonitor { last_received_ms: 0, timeout_ms: None },
        }
    }

    /// Whether the session is being closed or is closed.
    pub open spec fn closing(self) -> bool {
        self.state == ProtocolState::Closing || self.state == ProtocolState::Closed
    }

    /// Whether the subscription may be started or is running.
    pub open spec fn subscribing(self) -> bool {
        self.state == ProtocolState::StartingSubscription || self.state == ProtocolState::Active
    }

    /// The transition function: the machine after `signal`, and the actions
    /// to perform, in order.
    pub open spec fn step_spec(self, signal: Signal) -> (Machine, Seq<Action>) {
        match signal {
            Signal::Started(now_ms) => if self.state == ProtocolState::Idle {
                (
                    Machine {
                        state: ProtocolState::AwaitingAck,
                        keepalive: KeepaliveMonitor {
                            last_received_ms: now_ms,
                            ..self.keepalive
                        },
                        ..self
                    },
                    seq![Action::Send(Outbound::ConnectionInit)],
                )
            } else {
                (self, seq![])
            },
            Signal::Ack(hint) => if self.state == ProtocolState::AwaitingAck {
                (
                    Machine {
                        state: ProtocolState::StartingSubscription,
                        keepalive: KeepaliveMonitor {
                            timeout_ms: Some(KeepaliveMonitor::announced(hint)),
                            ..self.keepalive
                        },
                        ..self
                    },
                    seq![Action::ScheduleStart(START_DELAY_MS)],
                )
            } else {
                (self, seq![])
            },
            Signal::StartDelayElapsed => if self.subscribing() && !self.start_sent {
                (Machine { start_sent: true, ..self }, seq![Action::Send(Outbound::Start)])
            } else {
                (self, seq![])
            },
            Signal::StartAck => if self.state == ProtocolState::StartingSubscription {
                (Machine { state: ProtocolState::Active, ..self }, seq![])
            } else {
                (self, seq![])
            },
            Signal::Data(Some(payload)) => if self.state == ProtocolState::Active {
                (self, seq![Action::Deliver(payload)])
            } else {
                (self, seq![])
            },
            Signal::Data(None) => (self, seq![]),
            Signal::ServerError(payload) => if self.state != ProtocolState::Closed {
                (self, seq![Action::Fail(Failure::Subscription(payload))])
            } else {
                (self, seq![])
            },
            Signal::ConnectionError(payload) => if self.state != ProtocolState::Closed {
                (self, seq![Action::Fail(Failure::Connection(payload))])
            } else {
                (self, seq![])
            },
            Signal::Keepalive(now_ms) => (
                Machine {
                    keepalive: KeepaliveMonitor { last_received_ms: now_ms, ..self.keepalive },
                    ..self
                },
                seq![],
            ),
            Signal::Ignored => (self, seq![]),
            Signal::Tick(now_ms) => if self.subscribing() && self.keepalive.stale_at(now_ms) {
                (
                    Machine { state: ProtocolState::Closing, ..self },
                    seq![Action::Send(Outbound::Stop), Action::Fail(Failure::ConnectionLost)],
                )
            } else {
                (self, seq![])
            },
            Signal::Close => if !self.closing() {
                (
                    Machine { state: ProtocolState::Closing, ..self },
                    seq![Action::Send(Outbound::Stop)],
                )
            } else {
                (self, seq![])
            },
            Signal::StopWritten => if self.state == ProtocolState::Closing {
                (Machine { state: ProtocolState::Closed, ..self }, seq![Action::Shutdown])
            } else {
                (self, seq![])
            },
            Signal::TransportFailed => if self.state != ProtocolState::Closed {
                (
                    Machine { state: ProtocolState::Closed, ..self },
                    seq![Action::Fail(Failure::Transport), Action::Shutdown],
                )
            } else {
                (self, seq![])
            },
            Signal::WriteFailed => if self.state != ProtocolState::Closed {
                (
                    Machine { state: ProtocolState::Closed, ..self },
                    seq![Action::Fail(Failure::Write), Action::Shutdown],
                )
            } else {
                (self, seq![])
            },
        }
    }

    /// The machine of a session that has not started.
    pub fn new() -> (r: Machine)
        ensures
            r == Machine::initial(),
    {
        Machine {
            state: ProtocolState::Idle,
            start_sent: false,
            keepalive: KeepaliveMonitor::new(0),
        }
    }

    /// Takes one signal: moves to the next state and says what to do.
    pub fn step(&mut self, signal: Signal) -> (actions: Vec<Action>)
        ensures
            *final(self) == old(self).step_spec(signal).0,
            actions@ == old(self).step_spec(signal).1,
    {
        let mut actions: Vec<Action> = Vec::new();
        let subscribing = matches!(
            self.state,
            ProtocolState::StartingSubscription | ProtocolState::Active
        );
        let closed = matches!(self.state, ProtocolState::Closed);
        match signal {
            Signal::Started(now_ms) => {
                if matches!(self.state, ProtocolState::Idle) {
                    self.state = ProtocolState::AwaitingAck;
                    self.keepalive.record(now_ms);
                    actions.push(Action::Send(Outbound::ConnectionInit));
                }
            },
            Signal::Ack(hint) => {
                if matches!(self.state, ProtocolState::AwaitingAck) {
                    self.state = ProtocolState::StartingSubscription;
                    self.keepalive.announce(hint);
                    actions.push(Action::ScheduleStart(START_DELAY_MS));
                }
            },
            Signal::StartDelayElapsed => {
                if subscribing && !self.start_sent {
                    self.start_sent = true;
                    actions.push(Action::Send(Outbound::Start));
                }
            },
            Signal::StartAck => {
                if matches!(self.state, ProtocolState::StartingSubscription) {
                    self.state = ProtocolState::Active;
                }
            },
            Signal::Data(payload) => {
                if matches!(self.state, ProtocolState::Active) {
                    match payload {
                        Some(json) => {
                            actions.push(Action::Deliver(json));
                        },
                        None => {},
                    }
                }
            },
            Signal::ServerError(payload) => {
                if !closed {
                    actions.push(Action::Fail(Failure::Subscription(payload)));
                }
            },
            Signal::ConnectionError(payload) => {
                if !closed {
                    actions.push(Action::Fail(Failure::Connection(payload)));
                }
            },
            Signal::Keepalive(now_ms) => {
                self.keepalive.record(now_ms);
            },
            Signal::Ignored => {},
            Signal::Tick(now_ms) => {
                if subscribing && self.keepalive.is_stale(now_ms) {
                    self.state = ProtocolState::Closing;
                    actions.push(Action::Send(Outbound::Stop));
                    actions.push(Action::Fail(Failure::ConnectionLost));
                }
            },
            Signal::Close => {
                if !closed && !matches!(self.state, ProtocolState::Closing) {
                    self.state = ProtocolState::Closing;
                    actions.push(Action::Send(Outbound::Stop));
                }
            },
            Signal::StopWritten => {
                if matches!(self.state, ProtocolState::Closing) {
                    self.state = ProtocolState::Closed;
                    actions.push(Action::Shutdown);
                }
            },
            Signal::TransportFailed => {
                if !closed {
                    self.state = ProtocolState::Closed;
                    actions.push(Action::Fail(Failure::Transport));
                    actions.push(Action::Shutdown);
                }
            },
            Signal::WriteFailed => {
                if !closed {
                    self.state = ProtocolState::Closed;
                    actions.push(Action::Fail(Failure::Write));
                    actions.push(Action::Shutdown);
                }
            },
        }
        assert(actions@ =~= old(self).step_spec(signal).1);
        actions
    }
}

/// Turns a decoded frame, received at `now_ms`, into the machine's signal.
pub fn signal_of(frame: Option<SubscriptionResponse>, now_ms: u64) -> (r: Signal)
    ensures
        r == signal_for(frame, now_ms),
{
    match frame {
        None => Signal::Ignored,
        Some(envelope) => {
            let kind = envelope.kind();
            match kind {
                EnvelopeKind::ConnectionAck => {
                    let hint: Option<u64> = match &envelope.payload {
                        Some(json) => match json.get("connectionTimeoutMs") {
                            Some(value) => value.as_u64(),
                            None => None,
                        },
                        None => None,
                    };
                    Signal::Ack(hint)
                },
                EnvelopeKind::StartAck => Signal::StartAck,
                EnvelopeKind::Data => Signal::Data(envelope.payload),
                EnvelopeKind::Error => Signal::ServerError(envelope.payload),
                EnvelopeKind::ConnectionError => Signal::ConnectionError(envelope.payload),
                EnvelopeKind::Keepalive => Signal::Keepalive(now_ms),
                _ => Signal::Ignored,
            }
        },
    }
}

} // verus!
