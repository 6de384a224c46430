use pager_bridge::{encode, encode_message, DomainEvent, PagingMessage};

fn message(destination: u32, text: &str) -> PagingMessage {
    PagingMessage { destination, text: text.to_string() }
}

fn body_of(event: DomainEvent) -> String {
    String::from_utf8(encode(&event)).expect("the body is UTF-8")
}

fn some_texts() -> Vec<String> {
    let mut texts = vec![
        String::new(),
        "X".to_string(),
        "HELLO".to_string(),
        "say \"hi\"".to_string(),
        "back\\slash".to_string(),
        "line\nbreak\r\n\ttab".to_string(),
        "\u{8}\u{c}".to_string(),
        "\u{0}\u{1}\u{1f}\u{7f}".to_string(),
        "Grüße, 世界 \u{1f600}".to_string(),
        "\u{80}\u{9f}\u{2028}\u{2029}\u{feff}".to_string(),
        "</script>".to_string(),
        "{\"destination\":1,\"text\":\"nested\"}".to_string(),
    ];
    let every_ascii: String = (0u8..128).map(|byte| byte as char).collect();
    texts.push(every_ascii);
    texts
}

#[test]
fn timeslot_is_a_bare_number() {
    assert_eq!(encode(&DomainEvent::Timeslot(7)), b"7");
    let decoded: serde_json::Value = serde_json::from_slice(&encode(&DomainEvent::Timeslot(7))).expect("the body is JSON");
    assert!(decoded.is_u64());
    assert_eq!(decoded.as_u64(), Some(7));
}

#[test]
fn timeslot_3_is_written_like_the_integer_3() {
    assert_eq!(body_of(DomainEvent::Timeslot(3)), serde_json::to_string(&3u8).expect("an integer is written"));
}

#[test]
fn every_timeslot_is_written_in_decimal() {
    for slot in 0..=255u8 {
        assert_eq!(body_of(DomainEvent::Timeslot(slot)), slot.to_string());
    }
}

#[test]
fn queue_length_is_a_bare_number() {
    assert_eq!(encode(&DomainEvent::QueueLength(0)), b"0");
    assert_eq!(encode(&DomainEvent::QueueLength(9)), b"9");
    assert_eq!(encode(&DomainEvent::QueueLength(10)), b"10");
    assert_eq!(encode(&DomainEvent::QueueLength(120)), b"120");
    assert_eq!(encode(&DomainEvent::QueueLength(4294967295)), b"4294967295");
    assert_eq!(body_of(DomainEvent::QueueLength(usize::MAX)), usize::MAX.to_string());
    for length in [0usize, 1, 99, 100, 101, 12345, 1000000, usize::MAX] {
        assert_eq!(body_of(DomainEvent::QueueLength(length)), serde_json::to_string(&length).expect("an integer is written"));
    }
}

#[test]
fn transmitting_is_a_bare_boolean() {
    assert_eq!(encode(&DomainEvent::Transmitting(true)), b"true");
    assert_eq!(encode(&DomainEvent::Transmitting(false)), b"false");
    let decoded: serde_json::Value = serde_json::from_slice(&encode(&DomainEvent::Transmitting(true))).expect("the body is JSON");
    assert_eq!(decoded.as_bool(), Some(true));
}

#[test]
fn new_message_is_an_object_with_the_two_fields() {
    let body = encode(&DomainEvent::NewMessage(message(42, "X")));
    assert_eq!(body, b"{\"destination\":42,\"text\":\"X\"}");
    let decoded: serde_json::Value = serde_json::from_slice(&body).expect("the body is JSON");
    let fields = decoded.as_object().expect("the body is an object");
    assert_eq!(fields.len(), 2);
    assert_eq!(fields.get("destination").and_then(|held| held.as_u64()), Some(42));
    assert_eq!(fields.get("text").and_then(|held| held.as_str()), Some("X"));
}

#[test]
fn new_message_fields_stand_in_their_order() {
    let body = String::from_utf8(encode_message(&message(1234, "HELLO"))).expect("the body is UTF-8");
    assert_eq!(body, "{\"destination\":1234,\"text\":\"HELLO\"}");
    assert!(body.find("destination").expect("named") < body.find("text").expect("named"));
}

#[test]
fn new_message_destination_is_written_in_decimal() {
    assert_eq!(encode_message(&message(0, "")), b"{\"destination\":0,\"text\":\"\"}");
    assert_eq!(encode_message(&message(u32::MAX, "")), b"{\"destination\":4294967295,\"text\":\"\"}");
}

#[test]
fn quote_and_backslash_are_escaped() {
    assert_eq!(encode_message(&message(1, "a\"b")), b"{\"destination\":1,\"text\":\"a\\\"b\"}");
    assert_eq!(encode_message(&message(1, "a\\b")), b"{\"destination\":1,\"text\":\"a\\\\b\"}");
}

#[test]
fn control_characters_are_escaped() {
    assert_eq!(encode_message(&message(1, "\u{8}")), b"{\"destination\":1,\"text\":\"\\b\"}");
    assert_eq!(encode_message(&message(1, "\t")), b"{\"destination\":1,\"text\":\"\\t\"}");
    assert_eq!(encode_message(&message(1, "\n")), b"{\"destination\":1,\"text\":\"\\n\"}");
    assert_eq!(encode_message(&message(1, "\u{c}")), b"{\"destination\":1,\"text\":\"\\f\"}");
    assert_eq!(encode_message(&message(1, "\r")), b"{\"destination\":1,\"text\":\"\\r\"}");
    assert_eq!(encode_message(&message(1, "\u{0}")), b"{\"destination\":1,\"text\":\"\\u0000\"}");
    assert_eq!(encode_message(&message(1, "\u{b}")), b"{\"destination\":1,\"text\":\"\\u000b\"}");
    assert_eq!(encode_message(&message(1, "\u{1a}")), b"{\"destination\":1,\"text\":\"\\u001a\"}");
    assert_eq!(encode_message(&message(1, "\u{1f}")), b"{\"destination\":1,\"text\":\"\\u001f\"}");
}

#[test]
fn other_characters_stand_for_themselves() {
    assert_eq!(encode_message(&message(1, " /~\u{7f}")), b"{\"destination\":1,\"text\":\" /~\x7f\"}");
    assert_eq!(
        encode_message(&message(1, "Grüße")),
        "{\"destination\":1,\"text\":\"Grüße\"}".as_bytes()
    );
    assert_eq!(
        encode_message(&message(1, "世界\u{1f600}\u{2028}")),
        "{\"destination\":1,\"text\":\"世界\u{1f600}\u{2028}\"}".as_bytes()
    );
}

#[test]
fn text_is_written_as_serde_json_writes_a_string() {
    for text in some_texts() {
        let body = String::from_utf8(encode_message(&message(5, &text))).expect("the body is UTF-8");
        let quoted = serde_json::to_string(&text).expect("a string is written");
        assert_eq!(body, format!("{{\"destination\":5,\"text\":{}}}", quoted));
    }
}

#[test]
fn message_is_written_as_serde_json_writes_the_object() {
    for (destination, text) in [0u32, 1, 42, 1234, 2007153, u32::MAX].into_iter().zip(some_texts()) {
        let mut fields = serde_json::Map::new();
        fields.insert("destination".to_string(), serde_json::Value::from(destination));
        fields.insert("text".to_string(), serde_json::Value::from(text.clone()));
        let expected = serde_json::to_vec(&serde_json::Value::Object(fields)).expect("an object is written");
        assert_eq!(encode_message(&message(destination, &text)), expected);
    }
}

#[test]
fn text_is_read_back_unchanged() {
    for text in some_texts() {
        let body = encode(&DomainEvent::NewMessage(message(77, &text)));
        let decoded: serde_json::Value = serde_json::from_slice(&body).expect("the body is JSON");
        assert_eq!(decoded.get("destination").and_then(|held| held.as_u64()), Some(77));
        assert_eq!(decoded.get("text").and_then(|held| held.as_str()), Some(text.as_str()));
        let again = json::parse(std::str::from_utf8(&body).expect("the body is UTF-8")).expect("the body is JSON");
        assert_eq!(again["destination"].as_u32(), Some(77));
        assert_eq!(again["text"].as_str(), Some(text.as_str()));
        assert_eq!(again.len(), 2);
    }
}

#[test]
fn encoding_is_the_same_every_time() {
    for text in some_texts() {
        let event = DomainEvent::NewMessage(message(1, &text));
        assert_eq!(encode(&event), encode(&event));
    }
}
