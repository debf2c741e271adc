use maelstrom_node::json::DynamicMap;
use maelstrom_node::protocol::payload::{Message, MessageBody, MessageContent};
use maelstrom_node::protocol::wire::{
    decode_message, encode_message, parse_message, render_message,
};
use serde_json::Value;

fn sample() -> Message {
    let mut data = DynamicMap::new();
    data.insert("echo".to_string(), Value::String("hello".to_string()));
    data.insert("nested".to_string(), Value::Array(vec![Value::Null, Value::Bool(false)]));
    Message {
        src: Some("c1".to_string()),
        dest: Some("n1".to_string()),
        body: MessageBody {
            msg_id: Some(7),
            in_reply_to: Some(3),
            content: MessageContent { kind: "echo".to_string(), data },
        },
    }
}

#[test]
fn an_envelope_is_written_with_its_body_flattened() {
    let line = render_message(&sample());
    assert_eq!(
        line,
        r#"{"body":{"echo":"hello","in_reply_to":3,"msg_id":7,"nested":[null,false],"type":"echo"},"dest":"n1","src":"c1"}"#
    );
}

#[test]
fn absent_fields_are_left_out() {
    let msg = Message {
        src: None,
        dest: None,
        body: MessageBody {
            msg_id: None,
            in_reply_to: None,
            content: MessageContent { kind: "init_ok".to_string(), data: DynamicMap::new() },
        },
    };
    assert_eq!(render_message(&msg), r#"{"body":{"type":"init_ok"}}"#);
}

#[test]
fn writing_and_reading_gives_the_envelope_again() {
    let msg = sample();
    let back = decode_message(&encode_message(&msg)).unwrap();
    assert_eq!(back, msg);
    let back = parse_message(&render_message(&msg)).unwrap();
    assert_eq!(back, msg);
}

#[test]
fn reading_and_writing_keeps_every_field_of_the_payload() {
    let line = r#"{"src":"c1","dest":"n1","ignored":1,"body":{"type":"write","msg_id":2,"key":"k","value":{"a":[1,2,3]},"flag":null}}"#;
    let msg = parse_message(line).unwrap();
    assert_eq!(msg.src, Some("c1".to_string()));
    assert_eq!(msg.dest, Some("n1".to_string()));
    assert_eq!(msg.body.msg_id, Some(2));
    assert_eq!(msg.body.in_reply_to, None);
    assert_eq!(msg.kind(), "write");
    assert_eq!(msg.body.content.data.len(), 3);
    let written = encode_message(&msg);
    let body = written.get("body").unwrap().as_object().unwrap();
    let read: Value = serde_json::from_str(line).unwrap();
    let inbound = read.get("body").unwrap().as_object().unwrap();
    assert_eq!(body, inbound);
}

#[test]
fn null_stands_for_an_absent_field() {
    let line = r#"{"src":null,"dest":null,"body":{"type":"t","msg_id":null,"in_reply_to":null}}"#;
    let msg = parse_message(line).unwrap();
    assert_eq!(msg.src, None);
    assert_eq!(msg.dest, None);
    assert_eq!(msg.body.msg_id, None);
    assert_eq!(msg.body.in_reply_to, None);
    assert!(msg.body.content.data.is_empty());
}

#[test]
fn reserved_names_in_a_payload_are_not_written() {
    let mut msg = sample();
    msg.body.content.data.insert("type".to_string(), Value::String("forged".to_string()));
    msg.body.content.data.insert("msg_id".to_string(), Value::from(99u64));
    msg.body.content.data.insert("in_reply_to".to_string(), Value::from(98u64));
    msg.body.in_reply_to = None;
    let written = encode_message(&msg);
    let body = written.get("body").unwrap().as_object().unwrap();
    assert_eq!(body.get("type"), Some(&Value::String("echo".to_string())));
    assert_eq!(body.get("msg_id"), Some(&Value::from(7u64)));
    assert_eq!(body.get("in_reply_to"), None);
    assert_eq!(body.get("echo"), Some(&Value::String("hello".to_string())));
}

#[test]
fn what_is_no_envelope_is_malformed() {
    for line in [
        "null",
        "5",
        r#""text""#,
        "[]",
        "{}",
        r#"{"body":null}"#,
        r#"{"body":{"msg_id":1}}"#,
        r#"{"body":{"type":null}}"#,
        r#"{"src":["n1"],"body":{"type":"t"}}"#,
        r#"{"body":{"type":"t","msg_id":"1"}}"#,
        r#"{"body":{"type":"t","in_reply_to":-3}}"#,
        r#"{"body":{"type":"t","in_reply_to":18446744073709551616}}"#,
    ] {
        let err = parse_message(line).unwrap_err();
        assert_eq!(err.code(), 12);
        assert_eq!(err.text(), "message is not a well-formed envelope");
        assert_eq!(err.cause(), None);
    }
}

#[test]
fn what_is_no_json_is_malformed_with_the_text_of_the_parser() {
    let err = parse_message("{").unwrap_err();
    assert_eq!(err.code(), 12);
    let expected = serde_json::from_str::<Value>("{").unwrap_err().to_string();
    assert_eq!(err.text(), expected);
    assert!(parse_message("").is_err());
    assert!(parse_message("{} {}").is_err());
}

#[test]
fn the_largest_identifier_is_read() {
    let line = format!(r#"{{"body":{{"type":"t","msg_id":{}}}}}"#, usize::MAX);
    let msg = parse_message(&line).unwrap();
    assert_eq!(msg.body.msg_id, Some(usize::MAX));
    assert_eq!(parse_message(&render_message(&msg)).unwrap(), msg);
}
