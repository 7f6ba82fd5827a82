//! The frame codec: the closed set of protocol envelopes, how an inbound text
//! frame is read and how the outbound ones are written.

use vstd::prelude::*;
use vstd::string::*;
use crate::json::{lookup, parse, parsed_json, quote, quoted, Json};
use crate::negotiator::{header_text, ConnectionParams};
use crate::text::same_text;

verus! {

/// The kinds of envelope the protocol knows, and `Unknown` for every other tag.
#[derive(Debug, Clone, Copy, PartialEq, Eq, Structural)]
pub enum EnvelopeKind {
    ConnectionInit,
    ConnectionAck,
    Start,
    StartAck,
    Data,
    Error,
    ConnectionError,
    Keepalive,
    Stop,
    Unknown,
}

/// One decoded inbound envelope.
#[derive(Debug, PartialEq, Eq)]
pub struct SubscriptionResponse {
    /// The correlation id, where the frame carries one.
    pub id: Option<String>,
    /// The frame's `type` tag as it was sent.
    pub msg_type: String,
    /// The frame's payload; an absent and a `null` payload are both `None`.
    pub payload: Option<Json>,
}

/// The envelopes this side writes.
#[derive(Debug, Clone, Copy, PartialEq, Eq, Structural)]
pub enum Outbound {
    ConnectionInit,
    Start,
    Stop,
}

/// The kind that a `type` tag stands for.
pub open spec fn kind_of_text(tag: Seq<char>) -> EnvelopeKind {
    if tag == "connection_init"@ {
        EnvelopeKind::ConnectionInit
    } else if tag == "connection_ack"@ {
        EnvelopeKind::ConnectionAck
    } else if tag == "start"@ {
        EnvelopeKind::Start
    } else if tag == "start_ack"@ {
        EnvelopeKind::StartAck
    } else if tag == "data"@ {
        EnvelopeKind::Data
    } else if tag == "error"@ {
        EnvelopeKind::Error
    } else if tag == "connection_error"@ {
        EnvelopeKind::ConnectionError
    } else if tag == "ka"@ {
        EnvelopeKind::Keepalive
    } else if tag == "stop"@ {
        EnvelopeKind::Stop
    } else {
        EnvelopeKind::Unknown
    }
}

/// A member that is there and is not `null`.
pub open spec fn present(member: Option<Json>) -> Option<Json> {
    match member {
        Some(Json::Null) => None,
        other => other,
    }
}

/// The envelope that a JSON value stands for. It is an envelope only if it is
/// an object whose `type` is a string and whose `id` is a string, `null` or
/// missing; everything else is unparsed, `None`.
pub open spec fn decoded(json: Json) -> Option<SubscriptionResponse> {
    match json {
        Json::Object(fields) => match lookup(fields@, "type"@) {
            Some(Json::Text(tag)) => match lookup(fields@, "id"@) {
                None | Some(Json::Null) => Some(
                    SubscriptionResponse {
                        id: None,
                        msg_type: tag,
                        payload: present(lookup(fields@, "payload"@)),
                    },
                ),
                Some(Json::Text(id)) => Some(
                    SubscriptionResponse {
                        id: Some(id),
                        msg_type: tag,
                        payload: present(lookup(fields@, "payload"@)),
                    },
                ),
                _ => None,
            },
            _ => None,
        },
        _ => None,
    }
}

/// The envelope that a text frame stands for: unparsed where the text is not
/// JSON, else what its JSON value stands for.
pub open spec fn decoded_text(text: Seq<char>) -> Option<SubscriptionResponse> {
    match parsed_json(text) {
        Some(json) => decoded(json),
        None => None,
    }
}

/// The text of the `connection_init` envelope.
pub open spec fn connection_init_text() -> Seq<char> {
    "{\"type\":\"connection_init\"}"@
}

/// The JSON text of a subscription document with no variables.
pub open spec fn document_text(query: Seq<char>) -> Seq<char> {
    "{\"query\":"@ + quoted(query) + ",\"variables\":{}}"@
}

/// The text of the `start` envelope: the id, the stringified document, and
/// the authorization object once more under `extensions`.
pub open spec fn start_text(
    id: Seq<char>,
    query: Seq<char>,
    authorization: Seq<char>,
    host: Seq<char>,
) -> Seq<char> {
    "{\"id\":"@ + quoted(id) + ",\"payload\":{\"data\":"@ + quoted(document_text(query))
        + ",\"extensions\":{\"authorization\":"@ + header_text(authorization, host)
        + "}},\"type\":\"start\"}"@
}

/// The text of the `stop` envelope for a subscription id.
pub open spec fn stop_text(id: Seq<char>) -> Seq<char> {
    "{\"id\":"@ + quoted(id) + ",\"type\":\"stop\"}"@
}

/// Tells the kind of an envelope from its `type` tag.
pub fn kind_of(tag: &str) -> (k: EnvelopeKind)
    ensures
        k == kind_of_text(tag@),
{
    if same_text(tag, "connection_init") {
        EnvelopeKind::ConnectionInit
    } else if same_text(tag, "connection_ack") {
        EnvelopeKind::ConnectionAck
    } else if same_text(tag, "start") {
        EnvelopeKind::Start
    } else if same_text(tag, "start_ack") {
        EnvelopeKind::StartAck
    } else if same_text(tag, "data") {
        EnvelopeKind::Data
    } else if same_text(tag, "error") {
        EnvelopeKind::Error
    } else if same_text(tag, "connection_error") {
        EnvelopeKind::ConnectionError
    } else if same_text(tag, "ka") {
        EnvelopeKind::Keepalive
    } else if same_text(tag, "stop") {
        EnvelopeKind::Stop
    } else {
        EnvelopeKind::Unknown
    }
}

impl SubscriptionResponse {
    /// The kind of this envelope.
    pub open spec fn spec_kind(self) -> EnvelopeKind {
        kind_of_text(self.msg_type@)
    }

    /// The kind of this envelope.
    pub fn kind(&self) -> (k: EnvelopeKind)
        ensures
            k == self.spec_kind(),
    {
        kind_of(self.msg_type.as_str())
    }
}

/// The three members of an envelope object: `id`, `type` and `payload`.
fn take_members(fields: Vec<(String, Json)>) -> (r: (Option<Json>, Option<Json>, Option<Json>))
    ensures
        r.0 == lookup(fields@, "id"@),
        r.1 == lookup(fields@, "type"@),
        r.2 == lookup(fields@, "payload"@),
{
    let ghost all = fields@;
    let mut rest = fields;
    let mut id: Option<Json> = None;
    let mut tag: Option<Json> = None;
    let mut payload: Option<Json> = None;
    proof {
        reveal_strlit("id");
        reveal_strlit("type");
        reveal_strlit("payload");
    }
    assert(rest@ =~= all.subrange(0, all.len() as int));
    while rest.len() > 0
        invariant
            rest@.len() <= all.len(),
            rest@ == all.subrange(0, rest@.len() as int),
            "id"@.len() == 2,
            "type"@.len() == 4,
            "payload"@.len() == 7,
            id == lookup(all.subrange(rest@.len() as int, all.len() as int), "id"@),
            tag == lookup(all.subrange(rest@.len() as int, all.len() as int), "type"@),
            payload == lookup(all.subrange(rest@.len() as int, all.len() as int), "payload"@),
        decreases rest@.len(),
    {
        let ghost k = rest@.len() - 1;
        let ghost tail = all.subrange(k + 1, all.len() as int);
        let ghost grown = all.subrange(k, all.len() as int);
        match rest.pop() {
            Some(entry) => {
                proof {
                    assert(grown[0] == entry);
                    assert(grown.subrange(1, grown.len() as int) =~= tail);
                    assert(rest@ =~= all.subrange(0, k));
                }
                let (name, value) = entry;
                if same_text(name.as_str(), "id") {
                    id = Some(value);
                } else if same_text(name.as_str(), "type") {
                    tag = Some(value);
                } else if same_text(name.as_str(), "payload") {
                    payload = Some(value);
                }
            },
            None => {},
        }
    }
    assert(all.subrange(0, all.len() as int) =~= all);
    (id, tag, payload)
}

/// Reads a JSON value as an envelope.
pub fn decode_json(json: Json) -> (r: Option<SubscriptionResponse>)
    ensures
        r == decoded(json),
{
    match json {
        Json::Object(fields) => {
            let (id, tag, payload) = take_members(fields);
            let payload = match payload {
                Some(Json::Null) => None,
                other => other,
            };
            match tag {
                Some(Json::Text(msg_type)) => match id {
                    None => Some(SubscriptionResponse { id: None, msg_type, payload }),
                    Some(Json::Null) => Some(SubscriptionResponse { id: None, msg_type, payload }),
                    Some(Json::Text(id)) => Some(
                        SubscriptionResponse { id: Some(id), msg_type, payload },
                    ),
                    _ => None,
                },
                _ => None,
            }
        },
        _ => None,
    }
}

/// Reads one text frame. A frame that is not JSON, or not an envelope, is
/// unparsed: `None`.
pub fn decode(text: &str) -> (r: Option<SubscriptionResponse>)
    ensures
        r == decoded_text(text@),
{
    match parse(text) {
        Some(json) => decode_json(json),
        None => None,
    }
}

/// Writes the `connection_init` envelope.
pub fn encode_connection_init() -> (r: String)
    ensures
        r@ == connection_init_text(),
{
    String::from_str("{\"type\":\"connection_init\"}")
}

/// Writes the `start` envelope of a subscription.
pub fn encode_start(id: &str, query: &str, params: &ConnectionParams) -> (r: String)
    ensures
        r@ == start_text(id@, query@, params.authorization@, params.host@),
{
    let mut document = String::from_str("{\"query\":");
    let query_literal = quote(query);
    document.append(query_literal.as_str());
    document.append(",\"variables\":{}}");
    let mut out = String::from_str("{\"id\":");
    let id_literal = quote(id);
    out.append(id_literal.as_str());
    out.append(",\"payload\":{\"data\":");
    let data_literal = quote(document.as_str());
    out.append(data_literal.as_str());
    out.append(",\"extensions\":{\"authorization\":");
    let header = params.header_json();
    out.append(header.as_str());
    out.append("}},\"type\":\"start\"}");
    out
}

/// Writes the `stop` envelope of a subscription.
pub fn encode_stop(id: &str) -> (r: String)
    ensures
        r@ == stop_text(id@),
{
    let mut out = String::from_str("{\"id\":");
    let id_literal = quote(id);
    out.append(id_literal.as_str());
    out.append(",\"type\":\"stop\"}");
    out
}

} // verus!
