use rusty_chat_sync::negotiator::{normalize_host, normalize_token, ConnectionParams};
use rusty_chat_sync::text::{replace_all, same_text, starts_with};

#[test]
fn token_without_prefix_gets_one() {
    assert_eq!(normalize_token("tok"), "Bearer tok");
    assert_eq!(normalize_token(""), "Bearer ");
}

#[test]
fn token_with_prefix_is_kept() {
    assert_eq!(normalize_token("Bearer tok"), "Bearer tok");
    assert_eq!(normalize_token("Bearer "), "Bearer ");
}

#[test]
fn token_prefix_is_matched_exactly() {
    assert_eq!(normalize_token("bearer tok"), "Bearer bearer tok");
    assert_eq!(normalize_token("Bearer"), "Bearer Bearer");
    assert_eq!(normalize_token(" Bearer tok"), "Bearer  Bearer tok");
}

#[test]
fn token_normalization_is_idempotent() {
    for token in ["tok", "Bearer tok", "", "Bearer", "x Bearer y", "B\u{e9}arer t"] {
        let once = normalize_token(token);
        let twice = normalize_token(&once);
        assert_eq!(once, twice);
        assert!(once.starts_with("Bearer "));
        if !token.starts_with("Bearer ") {
            assert_eq!(&once["Bearer ".len()..], token);
        }
    }
}

#[test]
fn host_golden_example() {
    assert_eq!(
        normalize_host("wss://abc-realtime-api.example.com/graphql"),
        "abc-api.example.com"
    );
    assert_eq!(normalize_host("wss://h-realtime-api.x.com/graphql"), "h-api.x.com");
}

#[test]
fn host_without_pattern_is_unchanged() {
    assert_eq!(normalize_host("example.com"), "example.com");
    assert_eq!(normalize_host(""), "");
    assert_eq!(normalize_host("https://abc-realtime.example.com/gql"), "https://abc-realtime.example.com/gql");
}

#[test]
fn host_matches_what_str_replace_gives() {
    for endpoint in [
        "wss://abc-realtime-api.example.com/graphql",
        "wss://wss://a-realtime-api-realtime-api.b/graphql/graphql",
        "wwss://ss://x",
        "/graph/graphqlql",
        "-realtime-realtime-api",
        "wss:/",
        "h\u{e9}-realtime-api/graphql",
    ] {
        let expected = endpoint
            .replace("wss://", "")
            .replace("-realtime-api", "-api")
            .replace("/graphql", "");
        assert_eq!(normalize_host(endpoint), expected);
    }
}

#[test]
fn replace_all_is_leftmost_and_non_overlapping() {
    assert_eq!(replace_all("aaaa", "aa", "b"), "bb");
    assert_eq!(replace_all("aaa", "aa", "b"), "ba");
    assert_eq!(replace_all("abcabc", "bc", ""), "aa");
    assert_eq!(replace_all("abc", "abcd", "x"), "abc");
    assert_eq!(replace_all("abc", "", "x"), "abc");
    assert_eq!(replace_all("", "a", "x"), "");
    assert_eq!(replace_all("xay", "a", "aa"), "xaay");
}

#[test]
fn prefix_and_equality_helpers() {
    assert!(starts_with("Bearer tok", "Bearer "));
    assert!(starts_with("abc", ""));
    assert!(starts_with("abc", "abc"));
    assert!(!starts_with("ab", "abc"));
    assert!(!starts_with("xbc", "abc"));
    assert!(same_text("ka", "ka"));
    assert!(!same_text("ka", "k"));
    assert!(!same_text("ka", "kb"));
    assert!(same_text("", ""));
}

#[test]
fn negotiate_fills_both_fields() {
    let params = ConnectionParams::negotiate("wss://h-realtime-api.x.com/graphql", "tok");
    assert_eq!(params.authorization, "Bearer tok");
    assert_eq!(params.host, "h-api.x.com");
}

#[test]
fn header_json_golden() {
    let params = ConnectionParams::negotiate("wss://h-realtime-api.x.com/graphql", "tok");
    assert_eq!(
        params.header_json(),
        "{\"Authorization\":\"Bearer tok\",\"host\":\"h-api.x.com\"}"
    );
}

#[test]
fn header_json_escapes_its_strings() {
    let params = ConnectionParams {
        authorization: "Bearer a\"b\\c\n".to_string(),
        host: "h\tx".to_string(),
    };
    assert_eq!(
        params.header_json(),
        "{\"Authorization\":\"Bearer a\\\"b\\\\c\\n\",\"host\":\"h\\tx\"}"
    );
    let parsed: serde_json::Value = serde_json::from_str(&params.header_json()).unwrap();
    let mut expected = serde_json::Map::new();
    expected.insert(
        "Authorization".to_string(),
        serde_json::Value::String("Bearer a\"b\\c\n".to_string()),
    );
    expected.insert("host".to_string(), serde_json::Value::String("h\tx".to_string()));
    assert_eq!(parsed, serde_json::Value::Object(expected));
}

#[test]
fn header_json_is_what_the_printer_gives_for_the_object() {
    let params = ConnectionParams::negotiate("wss://abc-realtime-api.example.com/graphql", "t\u{e9}");
    let mut object = serde_json::Map::new();
    object.insert(
        "Authorization".to_string(),
        serde_json::Value::String("Bearer t\u{e9}".to_string()),
    );
    object.insert(
        "host".to_string(),
        serde_json::Value::String("abc-api.example.com".to_string()),
    );
    assert_eq!(params.header_json(), serde_json::Value::Object(object).to_string());
}

#[test]
fn connection_url_golden() {
    let endpoint = "wss://h-realtime-api.x.com/graphql";
    let params = ConnectionParams::negotiate(endpoint, "tok");
    assert_eq!(
        params.connection_url(endpoint),
        "wss://h-realtime-api.x.com/graphql?header=eyJBdXRob3JpemF0aW9uIjoiQmVhcmVyIHRvayIsImhvc3QiOiJoLWFwaS54LmNvbSJ9&payload=e30="
    );
}

#[test]
fn connection_url_decodes_back_to_the_header() {
    let endpoint = "wss://abc-realtime-api.example.com/graphql";
    let params = ConnectionParams::negotiate(endpoint, "Bearer secret");
    let url = params.connection_url(endpoint);
    let rest = url.strip_prefix(endpoint).unwrap();
    let rest = rest.strip_prefix("?header=").unwrap();
    let (header, payload) = rest.split_once("&payload=").unwrap();
    let header_bytes =
        base64::Engine::decode(&base64::engine::general_purpose::STANDARD, header).unwrap();
    assert_eq!(String::from_utf8(header_bytes).unwrap(), params.header_json());
    let payload_bytes =
        base64::Engine::decode(&base64::engine::general_purpose::STANDARD, payload).unwrap();
    assert_eq!(payload_bytes, b"{}".to_vec());
}
