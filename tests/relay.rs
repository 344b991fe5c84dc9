use queue_relay::{
    append_decimal, build, decode_utf8_bytes, frame_envelope, handle, header_text, publish_reply,
    reject, Action, BuildError, Failure, Reply, MAX_PAYLOAD_BYTES,
};

const QUEUE: &str = "https://queue.example/relay";

fn publish_of(action: Action) -> (String, String) {
    match action {
        Action::Publish { queue_url, payload } => (queue_url, payload),
        Action::Reject(f) => panic!("expected a publish, got {:?}", f),
    }
}

fn overhead() -> usize {
    r#"{"received":1,"from":"a","body":""}"#.len()
}

#[test]
fn scenario_curl_hello_is_published() {
    let action = handle(
        Some(1700000000),
        Some(QUEUE.to_string()),
        Some(b"curl/7.64".to_vec()),
        b"hello".to_vec(),
    );
    let (url, payload) = publish_of(action);
    assert_eq!(url, QUEUE);
    assert_eq!(payload, r#"{"received":1700000000,"from":"curl/7.64","body":"hello"}"#);
    assert_eq!(publish_reply(true), Reply { status: 200, text: "OK".to_string() });
}

#[test]
fn scenario_missing_identifier_is_rejected() {
    let action = handle(Some(1700000000), Some(QUEUE.to_string()), None, b"hello".to_vec());
    assert_eq!(action, Action::Reject(Failure::Input(BuildError::MissingIdentifier)));
    let reply = reject(Failure::Input(BuildError::MissingIdentifier));
    assert_eq!(reply.status, 400);
    assert_eq!(reply.text, "No user agent found");
}

#[test]
fn scenario_oversized_body_is_rejected() {
    let body = vec![b'a'; 300000];
    let action = handle(Some(1700000000), Some(QUEUE.to_string()), Some(b"curl/7.64".to_vec()), body);
    assert_eq!(action, Action::Reject(Failure::Input(BuildError::PayloadTooLarge)));
    let reply = reject(Failure::Input(BuildError::PayloadTooLarge));
    assert_eq!(reply, Reply { status: 400, text: "Body too long".to_string() });
}

#[test]
fn missing_identifier_rejected_for_any_body() {
    for body in [Vec::new(), vec![0xff, 0xfe], vec![b'x'; 300000], "día".as_bytes().to_vec()] {
        let action = handle(Some(5), Some(QUEUE.to_string()), None, body);
        assert!(matches!(action, Action::Reject(_)));
    }
}

#[test]
fn received_is_the_given_time() {
    for now in [0u64, 1, 1700000000, u64::MAX] {
        let payload = build(Some(b"agent".as_slice()), b"x".to_vec(), now).unwrap();
        let value: serde_json::Value = serde_json::from_str(&payload).unwrap();
        assert_eq!(value["received"].as_u64(), Some(now));
    }
}

#[test]
fn failed_publish_is_rejected() {
    assert_eq!(
        publish_reply(false),
        Reply { status: 400, text: "Could not connect to queue".to_string() }
    );
}

#[test]
fn multibyte_text_round_trips() {
    let from = "agent/1.0 (tab\there)";
    let body = "héllo wörld — 日本語 🎉 \"quoted\" \\ back\nline";
    let payload = build(Some(from.as_bytes()), body.as_bytes().to_vec(), 42).unwrap();
    let value: serde_json::Value = serde_json::from_str(&payload).unwrap();
    assert_eq!(value["from"].as_str(), Some(from));
    assert_eq!(value["body"].as_str(), Some(body));
    assert_eq!(value["received"].as_u64(), Some(42));
}

#[test]
fn body_is_escaped_as_json() {
    let payload = build(Some(b"a".as_slice()), b"say \"hi\"\n".to_vec(), 7).unwrap();
    assert_eq!(payload, r#"{"received":7,"from":"a","body":"say \"hi\"\n"}"#);
}

#[test]
fn field_order_is_stable() {
    let a = build(Some(b"a".as_slice()), b"b".to_vec(), 3).unwrap();
    let b = build(Some(b"a".as_slice()), b"b".to_vec(), 3).unwrap();
    assert_eq!(a, b);
    assert_eq!(a, r#"{"received":3,"from":"a","body":"b"}"#);
}

#[test]
fn payload_at_limit_is_accepted() {
    let n = MAX_PAYLOAD_BYTES - overhead();
    let payload = build(Some(b"a".as_slice()), vec![b'x'; n], 1).unwrap();
    assert_eq!(payload.len(), MAX_PAYLOAD_BYTES);
}

#[test]
fn payload_one_over_limit_is_rejected() {
    let n = MAX_PAYLOAD_BYTES - overhead() + 1;
    assert_eq!(build(Some(b"a".as_slice()), vec![b'x'; n], 1), Err(BuildError::PayloadTooLarge));
}

#[test]
fn limit_counts_bytes_not_characters() {
    let body = "é".repeat(MAX_PAYLOAD_BYTES / 2);
    assert!(body.chars().count() + overhead() < MAX_PAYLOAD_BYTES);
    assert_eq!(
        build(Some(b"a".as_slice()), body.into_bytes(), 1),
        Err(BuildError::PayloadTooLarge)
    );
}

#[test]
fn identifier_with_control_byte_is_invalid() {
    assert_eq!(
        build(Some(b"bad\nagent".as_slice()), b"x".to_vec(), 1),
        Err(BuildError::InvalidIdentifierEncoding)
    );
    let action = handle(Some(1), Some(QUEUE.to_string()), Some(vec![b'a', 0x80]), b"x".to_vec());
    assert_eq!(action, Action::Reject(Failure::Input(BuildError::InvalidIdentifierEncoding)));
    assert_eq!(reject(Failure::Input(BuildError::InvalidIdentifierEncoding)).text, "No valid user agent found");
}

#[test]
fn body_not_utf8_is_invalid() {
    assert_eq!(
        build(Some(b"agent".as_slice()), vec![b'o', 0xff, b'k'], 1),
        Err(BuildError::InvalidBodyEncoding)
    );
    assert_eq!(reject(Failure::Input(BuildError::InvalidBodyEncoding)).text, "Could not parse body");
}

#[test]
fn identifier_checked_before_body() {
    assert_eq!(
        build(Some(b"bad\x01".as_slice()), vec![0xff], 1),
        Err(BuildError::InvalidIdentifierEncoding)
    );
    assert_eq!(build(None, vec![0xff], 1), Err(BuildError::MissingIdentifier));
}

#[test]
fn clock_failure_is_rejected_first() {
    let action = handle(None, None, None, Vec::new());
    assert_eq!(action, Action::Reject(Failure::ClockUnavailable));
    assert_eq!(
        reject(Failure::ClockUnavailable),
        Reply { status: 400, text: "Could not get timestamp".to_string() }
    );
}

#[test]
fn missing_queue_url_is_rejected() {
    let action = handle(Some(1), None, Some(b"agent".to_vec()), b"x".to_vec());
    assert_eq!(action, Action::Reject(Failure::QueueUrlMissing));
    assert_eq!(reject(Failure::QueueUrlMissing).text, "Could not parse queue url");
    assert_eq!(reject(Failure::Input(BuildError::SerializationError)).text, "Could not format JSON");
}

#[test]
fn empty_identifier_and_body_are_accepted() {
    let payload = build(Some(b"".as_slice()), Vec::new(), 0).unwrap();
    assert_eq!(payload, r#"{"received":0,"from":"","body":""}"#);
}

#[test]
fn frame_writes_fields_in_order() {
    let framed = frame_envelope(1700000000, "\"curl/7.64\"", "\"hello\"").unwrap();
    assert_eq!(framed, r#"{"received":1700000000,"from":"curl/7.64","body":"hello"}"#);
    let big = "y".repeat(MAX_PAYLOAD_BYTES);
    assert_eq!(frame_envelope(1, "\"a\"", &big), Err(BuildError::PayloadTooLarge));
}

#[test]
fn decimal_forms() {
    let mut s = String::from("n=");
    append_decimal(&mut s, 0);
    assert_eq!(s, "n=0");
    let mut t = String::new();
    append_decimal(&mut t, u64::MAX);
    assert_eq!(t, "18446744073709551615");
    let mut u = String::new();
    append_decimal(&mut u, 1000);
    assert_eq!(u, "1000");
}

#[test]
fn header_text_accepts_visible_ascii_and_tab() {
    assert_eq!(header_text(b"Mozilla/5.0 (X11)\t~"), Some("Mozilla/5.0 (X11)\t~".to_string()));
    assert_eq!(header_text(b"del\x7f"), None);
    assert_eq!(header_text("é".as_bytes()), None);
}

#[test]
fn decode_utf8_bytes_decodes() {
    assert_eq!(decode_utf8_bytes("día 🎉".as_bytes().to_vec()), Some("día 🎉".to_string()));
    assert_eq!(decode_utf8_bytes(vec![0xc3]), None);
}
