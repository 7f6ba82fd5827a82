//! The subscription session: the subscription's identity, its wire texts and
//! its protocol machine behind one handle.

use vstd::prelude::*;
use vstd::string::*;
use crate::codec::{
    connection_init_text, decode, decoded_text, encode_connection_init, encode_start,
    encode_stop, start_text, stop_text, Outbound,
};
use crate::ids::fresh_id;
use crate::negotiator::{normalized_host, normalized_token, url_text, ConnectionParams};
use crate::protocol::{signal_for, signal_of, Action, Machine, ProtocolState, Signal};

verus! {

/// The sub-protocol that the transport is to be negotiated with.
pub fn sub_protocol() -> (r: &'static str)
    ensures
        r@ == "graphql-ws"@,
{
    "graphql-ws"
}

/// One live subscription over one connection.
#[derive(Debug, PartialEq, Eq)]
pub struct AppSyncWebSocket {
    /// The subscription's id: made once, used for `start` and for `stop`.
    pub subscription_id: String,
    /// The endpoint as the caller gave it.
    pub endpoint: String,
    /// The subscription document.
    pub subscription_query: String,
    /// The authorization material, fixed for the session's lifetime.
    pub params: ConnectionParams,
    /// The protocol machine.
    pub machine: Machine,
}

impl AppSyncWebSocket {
    /// Whether everything but the machine is the same in both sessions.
    pub open spec fn same_subscription(self, other: AppSyncWebSocket) -> bool {
        &&& self.subscription_id == other.subscription_id
        &&& self.endpoint == other.endpoint
        &&& self.subscription_query == other.subscription_query
        &&& self.params == other.params
    }

    /// The wire text of an outbound envelope of this session.
    pub open spec fn frame(self, which: Outbound) -> Seq<char> {
        match which {
            Outbound::ConnectionInit => connection_init_text(),
            Outbound::Start => start_text(
                self.subscription_id@,
                self.subscription_query@,
                self.params.authorization@,
                self.params.host@,
            ),
            Outbound::Stop => stop_text(self.subscription_id@),
        }
    }

    /// A session under a given subscription id, not yet started.
    pub fn with_subscription_id(
        endpoint: &str,
        token: &str,
        subscription_query: &str,
        subscription_id: String,
    ) -> (r: AppSyncWebSocket)
        ensures
            r.subscription_id == subscription_id,
            r.endpoint@ == endpoint@,
            r.subscription_query@ == subscription_query@,
            r.params.authorization@ == normalized_token(token@),
            r.params.host@ == normalized_host(endpoint@),
            r.machine == Machine::initial(),
    {
        AppSyncWebSocket {
            subscription_id,
            endpoint: String::from_str(endpoint),
            subscription_query: String::from_str(subscription_query),
            params: ConnectionParams::negotiate(endpoint, token),
            machine: Machine::new(),
        }
    }

    /// A session under a fresh subscription id, not yet started. Nothing is
    /// opened or written: that begins with the `Started` signal.
    pub fn new(endpoint: &str, token: &str, subscription_query: &str) -> (r: AppSyncWebSocket)
        ensures
            r.subscription_id@.len() == 36,
            r.endpoint@ == endpoint@,
            r.subscription_query@ == subscription_query@,
            r.params.authorization@ == normalized_token(token@),
            r.params.host@ == normalized_host(endpoint@),
            r.machine == Machine::initial(),
    {
        Self::with_subscription_id(endpoint, token, subscription_query, fresh_id())
    }

    /// Where the session stands.
    pub fn state(&self) -> (r: ProtocolState)
        ensures
            r == self.machine.state,
    {
        self.machine.state
    }

    /// The literal URL to open the transport on.
    pub fn connection_url(&self) -> (r: String)
        ensures
            r@ == url_text(self.endpoint@, self.params.authorization@, self.params.host@),
    {
        self.params.connection_url(self.endpoint.as_str())
    }

    /// The text frame to write for an outbound envelope.
    pub fn frame_text(&self, which: Outbound) -> (r: String)
        ensures
            r@ == self.frame(which),
    {
        match which {
            Outbound::ConnectionInit => encode_connection_init(),
            Outbound::Start => encode_start(
                self.subscription_id.as_str(),
                self.subscription_query.as_str(),
                &self.params,
            ),
            Outbound::Stop => encode_stop(self.subscription_id.as_str()),
        }
    }

    /// Takes one signal and says what to do. The subscription itself never
    /// changes.
    pub fn handle(&mut self, signal: Signal) -> (actions: Vec<Action>)
        ensures
            final(self).machine == old(self).machine.step_spec(signal).0,
            actions@ == old(self).machine.step_spec(signal).1,
            final(self).same_subscription(*old(self)),
    {
        self.machine.step(signal)
    }

    /// Takes one inbound text frame, received at `now_ms`. A frame that does
    /// not decode changes nothing and asks for nothing.
    pub fn on_text(&mut self, text: &str, now_ms: u64) -> (actions: Vec<Action>)
        ensures
            final(self).machine == old(self).machine.step_spec(
                signal_for(decoded_text(text@), now_ms),
            ).0,
            actions@ == old(self).machine.step_spec(signal_for(decoded_text(text@), now_ms)).1,
            final(self).same_subscription(*old(self)),
            decoded_text(text@) is None ==> final(self).machine == old(self).machine
                && actions@.len() == 0,
    {
        let signal = signal_of(decode(text), now_ms);
        self.machine.step(signal)
    }

    /// Takes one inbound binary frame: it means nothing in this protocol.
    pub fn on_binary(&mut self) -> (actions: Vec<Action>)
        ensures
            *final(self) == *old(self),
            actions@.len() == 0,
    {
        self.machine.step(Signal::Ignored)
    }

    /// Asks to close. Only the first request of a session that is not yet
    /// closing writes the `stop` envelope; every later one is a no-op.
    pub fn close(&mut self) -> (actions: Vec<Action>)
        ensures
            final(self).machine == old(self).machine.step_spec(Signal::Close).0,
            actions@ == old(self).machine.step_spec(Signal::Close).1,
            final(self).same_subscription(*old(self)),
            final(self).machine.closing(),
            old(self).machine.closing() ==> *final(self) == *old(self) && actions@.len() == 0,
            !old(self).machine.closing() ==> actions@ == seq![Action::Send(Outbound::Stop)],
    {
        self.machine.step(Signal::Close)
    }
}

} // verus!
