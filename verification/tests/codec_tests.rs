//! Tests for the wire codec: exact envelope text, JSON string escaping,
//! and tolerant decoding of inbound frames.

use relay_core::codec::decode_command;
use relay_core::codec::encode_envelope;
use relay_core::codec::encode_paths_payload;
use relay_core::codec::quote_string;
use relay_core::codec::set_client_id_message;
use relay_core::codec::subscribe_snapshot_message;
use relay_core::strutil::dec_string;
use relay_core::strutil::str_eq;

#[test]
fn envelope_exact_text() {
    let r = encode_envelope("log", "{\"msg\":\"hi\"}");
    assert_eq!(r, "{\"type\":\"log\",\"payload\":{\"msg\":\"hi\"}}");
}

#[test]
fn quote_plain_string() {
    assert_eq!(quote_string("app.state"), "\"app.state\"");
}

#[test]
fn quote_escapes_specials() {
    assert_eq!(quote_string("a\"b\\c\nd\re\tf"), "\"a\\\"b\\\\c\\nd\\re\\tf\"");
}

#[test]
fn quote_escapes_control_chars() {
    assert_eq!(quote_string("\u{1}\u{1f}"), "\"\\u0001\\u001f\"");
}

#[test]
fn quoted_text_round_trips_through_json() {
    let original = "we\"ird\\pa\nth\u{2} ok";
    let quoted = quote_string(original);
    let back: serde_json::Value = serde_json::from_str(&quoted).unwrap();
    assert_eq!(back.as_str().unwrap(), original);
}

#[test]
fn set_client_id_exact_text() {
    let r = set_client_id_message("abc-123");
    assert_eq!(r, "{\"type\":\"setClientId\",\"payload\":\"abc-123\"}");
}

#[test]
fn snapshot_message_exact_text() {
    let paths = vec![String::from("app.state"), String::from("user.name")];
    let r = subscribe_snapshot_message(&paths);
    assert_eq!(
        r,
        "{\"type\":\"state.values.subscribe\",\"payload\":{\"paths\":[\"app.state\",\"user.name\"]}}"
    );
}

#[test]
fn empty_paths_payload() {
    let paths: Vec<String> = Vec::new();
    assert_eq!(encode_paths_payload(&paths), "{\"paths\":[]}");
}

#[test]
fn decode_minimal_command() {
    let d = decode_command("{\"type\":\"log\",\"payload\":{\"msg\":\"hi\"}}").unwrap();
    assert_eq!(d.cmd.kind, "log");
    assert!(d.cmd.connection_id.is_none());
    assert!(d.cmd.message_id.is_none());
    assert!(d.cmd.client_id.is_none());
    assert!(d.cmd.date.is_none());
    assert!(d.intro_id.is_none());
    assert!(d.paths.is_empty());
}

#[test]
fn decode_rejects_malformed_json() {
    assert!(decode_command("{not json").is_none());
}

#[test]
fn decode_rejects_missing_type() {
    assert!(decode_command("{\"payload\":{}}").is_none());
}

#[test]
fn decode_rejects_non_string_type() {
    assert!(decode_command("{\"type\":7,\"payload\":{}}").is_none());
}

#[test]
fn decode_rejects_missing_payload() {
    assert!(decode_command("{\"type\":\"log\"}").is_none());
}

#[test]
fn decode_ignores_wire_connection_and_message_ids() {
    let d = decode_command(
        "{\"type\":\"log\",\"payload\":null,\"connectionId\":99,\"messageId\":42}",
    )
    .unwrap();
    assert!(d.cmd.connection_id.is_none());
    assert!(d.cmd.message_id.is_none());
}

#[test]
fn decode_rejects_non_string_date() {
    assert!(decode_command("{\"type\":\"log\",\"payload\":{},\"date\":123}").is_none());
}

#[test]
fn decode_rejects_non_string_client_id() {
    assert!(decode_command("{\"type\":\"log\",\"payload\":{},\"clientId\":7}").is_none());
}

#[test]
fn decode_ignores_unknown_fields() {
    let d = decode_command("{\"type\":\"log\",\"payload\":1,\"zzz\":true}").unwrap();
    assert_eq!(d.cmd.kind, "log");
}

#[test]
fn decode_extracts_intro_id() {
    let d = decode_command(
        "{\"type\":\"client.intro\",\"payload\":{\"clientId\":\"client-7\"}}",
    )
    .unwrap();
    assert_eq!(d.intro_id.as_deref(), Some("client-7"));
}

#[test]
fn decode_extracts_paths_skipping_non_strings() {
    let d = decode_command(
        "{\"type\":\"state.values.subscribe\",\"payload\":{\"paths\":[\"a\",3,\"b\",null]}}",
    )
    .unwrap();
    assert_eq!(d.paths, vec![String::from("a"), String::from("b")]);
}

#[test]
fn decode_keeps_optional_fields() {
    let d = decode_command(
        "{\"type\":\"log\",\"payload\":{},\"date\":\"2024-01-01T00:00:00Z\",\"clientId\":\"c1\",\"important\":true}",
    )
    .unwrap();
    assert_eq!(d.cmd.date.as_deref(), Some("2024-01-01T00:00:00Z"));
    assert_eq!(d.cmd.client_id.as_deref(), Some("c1"));
    assert!(d.cmd.important.is_some());
}

#[test]
fn dec_string_renders_decimals() {
    assert_eq!(dec_string(0), "0");
    assert_eq!(dec_string(9), "9");
    assert_eq!(dec_string(10), "10");
    assert_eq!(dec_string(1234567890), "1234567890");
    assert_eq!(dec_string(u64::MAX), "18446744073709551615");
}

#[test]
fn str_eq_compares_contents() {
    assert!(str_eq("abc", "abc"));
    assert!(!str_eq("abc", "abd"));
    assert!(!str_eq("abc", "abcd"));
    assert!(str_eq("", ""));
}
