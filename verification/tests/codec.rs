use rusty_chat_sync::codec::{
    decode, decode_json, encode_connection_init, encode_start, encode_stop, kind_of,
    EnvelopeKind, SubscriptionResponse,
};
use rusty_chat_sync::json::{parse, Json};
use rusty_chat_sync::negotiator::ConnectionParams;

fn object(members: Vec<(&str, Json)>) -> Json {
    Json::Object(members.into_iter().map(|(k, v)| (k.to_string(), v)).collect())
}

#[test]
fn parse_scalars() {
    assert_eq!(parse("null"), Some(Json::Null));
    assert_eq!(parse("true"), Some(Json::Bool(true)));
    assert_eq!(parse("false"), Some(Json::Bool(false)));
    assert_eq!(parse("5000"), Some(Json::Unsigned(5000)));
    assert_eq!(parse("18446744073709551615"), Some(Json::Unsigned(u64::MAX)));
    assert_eq!(parse("-1"), Some(Json::Number("-1".to_string())));
    assert_eq!(parse("1.5"), Some(Json::Number("1.5".to_string())));
    assert_eq!(parse("\"a\\nb\""), Some(Json::Text("a\nb".to_string())));
}

#[test]
fn parse_containers() {
    assert_eq!(
        parse("[1, \"x\", [], {}]"),
        Some(Json::Array(vec![
            Json::Unsigned(1),
            Json::Text("x".to_string()),
            Json::Array(vec![]),
            Json::Object(vec![]),
        ]))
    );
    assert_eq!(
        parse("{\"x\":1,\"a\":{\"b\":null}}"),
        Some(object(vec![("a", object(vec![("b", Json::Null)])), ("x", Json::Unsigned(1))]))
    );
}

#[test]
fn parse_rejects_what_is_not_json() {
    assert_eq!(parse(""), None);
    assert_eq!(parse("not json"), None);
    assert_eq!(parse("{\"type\":"), None);
    assert_eq!(parse("{} trailing"), None);
    assert_eq!(parse("{'type':'data'}"), None);
}

#[test]
fn json_get_and_as_u64() {
    let value = object(vec![("a", Json::Unsigned(3)), ("b", Json::Text("t".to_string()))]);
    assert_eq!(value.get("a"), Some(&Json::Unsigned(3)));
    assert_eq!(value.get("b"), Some(&Json::Text("t".to_string())));
    assert_eq!(value.get("c"), None);
    assert_eq!(Json::Unsigned(3).get("a"), None);
    assert_eq!(Json::Array(vec![Json::Unsigned(3)]).get("0"), None);
    assert_eq!(Json::Unsigned(3).as_u64(), Some(3));
    assert_eq!(Json::Number("-3".to_string()).as_u64(), None);
    assert_eq!(Json::Text("3".to_string()).as_u64(), None);
    assert_eq!(Json::Null.as_u64(), None);
}

#[test]
fn kind_of_every_tag() {
    assert_eq!(kind_of("connection_init"), EnvelopeKind::ConnectionInit);
    assert_eq!(kind_of("connection_ack"), EnvelopeKind::ConnectionAck);
    assert_eq!(kind_of("start"), EnvelopeKind::Start);
    assert_eq!(kind_of("start_ack"), EnvelopeKind::StartAck);
    assert_eq!(kind_of("data"), EnvelopeKind::Data);
    assert_eq!(kind_of("error"), EnvelopeKind::Error);
    assert_eq!(kind_of("connection_error"), EnvelopeKind::ConnectionError);
    assert_eq!(kind_of("ka"), EnvelopeKind::Keepalive);
    assert_eq!(kind_of("stop"), EnvelopeKind::Stop);
    assert_eq!(kind_of("keepalive"), EnvelopeKind::Unknown);
    assert_eq!(kind_of("DATA"), EnvelopeKind::Unknown);
    assert_eq!(kind_of(""), EnvelopeKind::Unknown);
}

#[test]
fn decode_connection_ack_with_timeout() {
    let frame = decode("{\"type\":\"connection_ack\",\"payload\":{\"connectionTimeoutMs\":5000}}");
    assert_eq!(
        frame,
        Some(SubscriptionResponse {
            id: None,
            msg_type: "connection_ack".to_string(),
            payload: Some(object(vec![("connectionTimeoutMs", Json::Unsigned(5000))])),
        })
    );
    assert_eq!(frame.unwrap().kind(), EnvelopeKind::ConnectionAck);
}

#[test]
fn decode_data_with_id() {
    let frame = decode("{\"id\":\"abc\",\"type\":\"data\",\"payload\":{\"x\":1},\"extra\":true}");
    assert_eq!(
        frame,
        Some(SubscriptionResponse {
            id: Some("abc".to_string()),
            msg_type: "data".to_string(),
            payload: Some(object(vec![("x", Json::Unsigned(1))])),
        })
    );
}

#[test]
fn decode_treats_null_members_as_absent() {
    assert_eq!(
        decode("{\"id\":null,\"type\":\"ka\",\"payload\":null}"),
        Some(SubscriptionResponse { id: None, msg_type: "ka".to_string(), payload: None })
    );
    assert_eq!(
        decode("{\"type\":\"start_ack\"}"),
        Some(SubscriptionResponse { id: None, msg_type: "start_ack".to_string(), payload: None })
    );
}

#[test]
fn decode_keeps_unknown_tags() {
    let frame = decode("{\"type\":\"complete\"}").unwrap();
    assert_eq!(frame.msg_type, "complete");
    assert_eq!(frame.kind(), EnvelopeKind::Unknown);
}

#[test]
fn decode_gives_unparsed_for_malformed_frames() {
    assert_eq!(decode("not json"), None);
    assert_eq!(decode(""), None);
    assert_eq!(decode("[null,\"data\",{}]"), None);
    assert_eq!(decode("\"data\""), None);
    assert_eq!(decode("{\"payload\":{\"x\":1}}"), None);
    assert_eq!(decode("{\"type\":5}"), None);
    assert_eq!(decode("{\"type\":null}"), None);
    assert_eq!(decode("{\"id\":5,\"type\":\"data\"}"), None);
}

#[test]
fn decode_json_reads_members_in_any_order() {
    let json = Json::Object(vec![
        ("payload".to_string(), Json::Bool(true)),
        ("type".to_string(), Json::Text("data".to_string())),
        ("id".to_string(), Json::Text("7".to_string())),
    ]);
    assert_eq!(
        decode_json(json),
        Some(SubscriptionResponse {
            id: Some("7".to_string()),
            msg_type: "data".to_string(),
            payload: Some(Json::Bool(true)),
        })
    );
    assert_eq!(decode_json(Json::Null), None);
    assert_eq!(decode_json(Json::Object(vec![])), None);
}

#[test]
fn decode_json_takes_the_first_of_repeated_members() {
    let json = Json::Object(vec![
        ("type".to_string(), Json::Text("data".to_string())),
        ("type".to_string(), Json::Text("error".to_string())),
    ]);
    assert_eq!(decode_json(json).unwrap().msg_type, "data");
}

#[test]
fn connection_init_golden() {
    assert_eq!(encode_connection_init(), "{\"type\":\"connection_init\"}");
}

#[test]
fn stop_golden() {
    assert_eq!(encode_stop("ID"), "{\"id\":\"ID\",\"type\":\"stop\"}");
    assert_eq!(encode_stop("a\"b"), "{\"id\":\"a\\\"b\",\"type\":\"stop\"}");
}

#[test]
fn start_golden() {
    let params = ConnectionParams::negotiate("wss://h-realtime-api.x.com/graphql", "tok");
    assert_eq!(
        encode_start("ID", "subscription{...}", &params),
        "{\"id\":\"ID\",\"payload\":{\"data\":\"{\\\"query\\\":\\\"subscription{...}\\\",\\\"variables\\\":{}}\",\"extensions\":{\"authorization\":{\"Authorization\":\"Bearer tok\",\"host\":\"h-api.x.com\"}}},\"type\":\"start\"}"
    );
}

#[test]
fn start_is_what_the_printer_gives_for_the_object() {
    let query = "subscription On($chatId: String!) {\n  on(chatId: $chatId) { \"id\" }\n}";
    let params = ConnectionParams::negotiate("wss://abc-realtime-api.example.com/graphql", "tok");

    let mut document = serde_json::Map::new();
    document.insert("query".to_string(), serde_json::Value::String(query.to_string()));
    document.insert("variables".to_string(), serde_json::Value::Object(serde_json::Map::new()));
    let mut authorization = serde_json::Map::new();
    authorization.insert(
        "Authorization".to_string(),
        serde_json::Value::String("Bearer tok".to_string()),
    );
    authorization.insert(
        "host".to_string(),
        serde_json::Value::String("abc-api.example.com".to_string()),
    );
    let mut extensions = serde_json::Map::new();
    extensions.insert("authorization".to_string(), serde_json::Value::Object(authorization));
    let mut payload = serde_json::Map::new();
    payload.insert(
        "data".to_string(),
        serde_json::Value::String(serde_json::Value::Object(document).to_string()),
    );
    payload.insert("extensions".to_string(), serde_json::Value::Object(extensions));
    let mut start = serde_json::Map::new();
    start.insert("id".to_string(), serde_json::Value::String("sub-1".to_string()));
    start.insert("type".to_string(), serde_json::Value::String("start".to_string()));
    start.insert("payload".to_string(), serde_json::Value::Object(payload));

    assert_eq!(
        encode_start("sub-1", query, &params),
        serde_json::Value::Object(start).to_string()
    );
}
