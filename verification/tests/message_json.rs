use chat_lobby::json::push_decimal;
use chat_lobby::message::{render_error_data, render_message, ClientMessage};

fn msg(fingerprint: &str, event: &str, data: &str) -> ClientMessage {
    ClientMessage {
        fingerprint: fingerprint.to_string(),
        event: event.to_string(),
        data: data.to_string(),
    }
}

#[test]
fn decimal_of_zero_and_large_numbers() {
    let mut out = String::new();
    push_decimal(0, &mut out);
    assert_eq!(out, "0");
    let mut out = String::from("code=");
    push_decimal(401, &mut out);
    assert_eq!(out, "code=401");
    let mut out = String::new();
    push_decimal(u64::MAX, &mut out);
    assert_eq!(out, "18446744073709551615");
}

#[test]
fn message_keys_are_sorted() {
    let m = msg("abc", "looking", "null");
    assert_eq!(m.to_json(), r#"{"data":null,"event":"looking","fingerprint":"abc"}"#);
}

#[test]
fn message_text_is_escaped() {
    let m = msg("a\"b\\c\nd\u{1}", "message", r#"{"text":"hi"}"#);
    assert_eq!(
        m.to_json(),
        r#"{"data":{"text":"hi"},"event":"message","fingerprint":"a\"b\\c\nd\u0001"}"#
    );
}

#[test]
fn message_json_matches_serde_json() {
    let m = msg("fé/\t\u{8}\u{c}\r", "exit", "{}");
    let value: serde_json::Value = serde_json::from_str(&m.to_json()).unwrap();
    assert_eq!(value["fingerprint"], serde_json::Value::String(m.fingerprint.clone()));
    assert_eq!(value["event"], "exit");
    assert_eq!(value["data"], serde_json::Value::Object(serde_json::Map::new()));
    let mut map = serde_json::Map::new();
    map.insert("fingerprint".to_string(), serde_json::Value::String(m.fingerprint.clone()));
    map.insert("event".to_string(), serde_json::Value::String("exit".to_string()));
    map.insert("data".to_string(), serde_json::Value::Object(serde_json::Map::new()));
    assert_eq!(m.to_json(), serde_json::Value::Object(map).to_string());
}

#[test]
fn error_payload() {
    assert_eq!(render_error_data(400, "Bad Request"), r#"{"code":400,"message":"Bad Request"}"#);
    assert_eq!(render_error_data(401, "-12315"), r#"{"code":401,"message":"-12315"}"#);
}

#[test]
fn render_message_frames_fields() {
    assert_eq!(render_message("x", "joined", "{}"), r#"{"data":{},"event":"joined","fingerprint":"x"}"#);
}
