use opcode::encode::encode_event;
use opcode::events::{Event, StreamKind};

#[test]
fn encodes_output_records() {
    let e = Event::Output { stream: StreamKind::Stdout, text: "line1".to_string() };
    assert_eq!(
        encode_event(&e),
        "{\"type\":\"output\",\"stream\":\"stdout\",\"text\":\"line1\"}"
    );
    let e = Event::Output { stream: StreamKind::Stderr, text: "oops".to_string() };
    assert_eq!(
        encode_event(&e),
        "{\"type\":\"output\",\"stream\":\"stderr\",\"text\":\"oops\"}"
    );
}

#[test]
fn encodes_completion_records() {
    let e = Event::Completed { exit_success: true, exit_code: Some(0) };
    assert_eq!(encode_event(&e), "{\"type\":\"complete\",\"success\":true,\"code\":0}");
    let e = Event::Completed { exit_success: false, exit_code: Some(137) };
    assert_eq!(encode_event(&e), "{\"type\":\"complete\",\"success\":false,\"code\":137}");
    let e = Event::Completed { exit_success: false, exit_code: None };
    assert_eq!(encode_event(&e), "{\"type\":\"complete\",\"success\":false,\"code\":null}");
}

#[test]
fn encodes_negative_and_extreme_exit_codes() {
    let e = Event::Completed { exit_success: false, exit_code: Some(-9) };
    assert_eq!(encode_event(&e), "{\"type\":\"complete\",\"success\":false,\"code\":-9}");
    let e = Event::Completed { exit_success: false, exit_code: Some(i32::MIN) };
    assert_eq!(
        encode_event(&e),
        "{\"type\":\"complete\",\"success\":false,\"code\":-2147483648}"
    );
    let e = Event::Completed { exit_success: true, exit_code: Some(i32::MAX) };
    assert_eq!(
        encode_event(&e),
        "{\"type\":\"complete\",\"success\":true,\"code\":2147483647}"
    );
}

#[test]
fn encodes_failure_and_cancellation_records() {
    let e = Event::Failed { message: "boom".to_string() };
    assert_eq!(encode_event(&e), "{\"type\":\"error\",\"message\":\"boom\"}");
    assert_eq!(encode_event(&Event::Cancelled), "{\"type\":\"cancelled\"}");
}

#[test]
fn escapes_text_payloads() {
    let e = Event::Output {
        stream: StreamKind::Stdout,
        text: "a\"b\\c\nd\te\rf".to_string(),
    };
    assert_eq!(
        encode_event(&e),
        "{\"type\":\"output\",\"stream\":\"stdout\",\"text\":\"a\\\"b\\\\c\\nd\\te\\rf\"}"
    );
}

#[test]
fn escapes_control_characters_as_hex() {
    let e = Event::Failed { message: "\u{01}\u{1f}".to_string() };
    assert_eq!(
        encode_event(&e),
        "{\"type\":\"error\",\"message\":\"\\u0001\\u001f\"}"
    );
}

#[test]
fn passes_unicode_through() {
    let e = Event::Output { stream: StreamKind::Stdout, text: "héllo → 世界".to_string() };
    assert_eq!(
        encode_event(&e),
        "{\"type\":\"output\",\"stream\":\"stdout\",\"text\":\"héllo → 世界\"}"
    );
}
