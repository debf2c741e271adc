use maelstrom_node::protocol::errors::{ErrorKind, ErrorMessage};
use maelstrom_node::protocol::payload::{Message, MessageBody, MessageContent};
use maelstrom_node::protocol::serialization::{
    deserialize_message_content, open_mapping, serialize_message_content, written,
};
use maelstrom_node::server::system_messages::{InitMessage, InitOkMessage};
use maelstrom_node::json::DynamicMap;
use serde_json::Value;

fn message_with_foo() -> Message {
    Message {
        src: None,
        dest: None,
        body: MessageBody {
            in_reply_to: None,
            msg_id: None,
            content: MessageContent {
                kind: "test".to_string(),
                data: {
                    let mut map = DynamicMap::new();
                    map.insert("foo".to_string(), Value::String("bar".to_string()));
                    map
                },
            },
        },
    }
}

fn map_with_foo() -> DynamicMap {
    let mut map = DynamicMap::new();
    map.insert("foo".to_string(), Value::String("bar".to_string()));
    map
}

#[test]
fn test_deserialize_message_content() {
    let msg = message_with_foo();

    let data: DynamicMap = deserialize_message_content(&msg, open_mapping).unwrap();
    assert_eq!(data.get("foo").unwrap(), &Value::String("bar".to_string()));
}

#[test]
fn bus_test_deserialize_message_content() {
    let msg = message_with_foo();

    let data: DynamicMap = deserialize_message_content(&msg, open_mapping).unwrap();
    assert_eq!(data.get("foo").unwrap(), &Value::String("bar".to_string()));
}

#[test]
fn serialization_test_deserialize_message_content() {
    let msg = message_with_foo();

    let data: DynamicMap = deserialize_message_content(&msg, open_mapping).unwrap();
    assert_eq!(data.get("foo").unwrap(), &Value::String("bar".to_string()));
}

#[test]
fn test_serialize_message_content() {
    let data = map_with_foo();

    let serialized = serialize_message_content(&Value::Object(data)).unwrap();
    assert_eq!(
        serialized.get("foo").unwrap(),
        &Value::String("bar".to_string())
    );
}

#[test]
fn bus_test_serialize_message_content() {
    let data = map_with_foo();

    let serialized = serialize_message_content(&Value::Object(data)).unwrap();
    assert_eq!(
        serialized.get("foo").unwrap(),
        &Value::String("bar".to_string())
    );
}

#[test]
fn serialization_test_serialize_message_content() {
    let data = map_with_foo();

    let serialized = serialize_message_content(&Value::Object(data)).unwrap();
    assert_eq!(
        serialized.get("foo").unwrap(),
        &Value::String("bar".to_string())
    );
}

#[test]
fn open_mapping_copies_every_field() {
    let data = map_with_foo();
    let copy = open_mapping(&data).unwrap();
    assert_eq!(copy, data);
}

#[test]
fn null_serializes_to_no_fields() {
    let serialized = serialize_message_content(&Value::Null).unwrap();
    assert!(serialized.is_empty());
    let serialized = serialize_message_content(&InitOkMessage.to_value()).unwrap();
    assert!(serialized.is_empty());
}

#[test]
fn what_is_no_object_fails_with_crash() {
    let err = serialize_message_content(&Value::from(5u64)).unwrap_err();
    assert_eq!(err.code(), 13);
    assert_eq!(err.text(), "message content must serialize to an object");
    assert_eq!(err.cause(), None);
    let err = serialize_message_content(&Value::Array(vec![Value::Null])).unwrap_err();
    assert_eq!(err.code(), usize::from(ErrorKind::Crash));
    assert!(serialize_message_content(&Value::String("x".to_string())).is_err());
    assert!(serialize_message_content(&Value::Bool(true)).is_err());
}

#[test]
fn error_serializes_to_code_and_text_only() {
    let err = ErrorMessage::new(ErrorKind::TxnConflict, "conflict").with_cause("local detail");
    let serialized = serialize_message_content(&err.to_value()).unwrap();
    assert_eq!(serialized.len(), 2);
    assert_eq!(serialized.get("code"), Some(&Value::from(30u64)));
    assert_eq!(serialized.get("text"), Some(&Value::String("conflict".to_string())));
}

fn init_message(data: DynamicMap) -> Message {
    Message {
        src: Some("c1".to_string()),
        dest: Some("n1".to_string()),
        body: MessageBody {
            msg_id: Some(1),
            in_reply_to: None,
            content: MessageContent { kind: "init".to_string(), data },
        },
    }
}

#[test]
fn init_message_is_read_from_its_fields() {
    let mut data = DynamicMap::new();
    data.insert("node_id".to_string(), Value::String("n1".to_string()));
    data.insert(
        "node_ids".to_string(),
        Value::Array(vec![
            Value::String("n1".to_string()),
            Value::String("n2".to_string()),
        ]),
    );
    data.insert("extra".to_string(), Value::Bool(true));
    let init: InitMessage =
        deserialize_message_content(&init_message(data), InitMessage::from_payload).unwrap();
    assert_eq!(init.node_id, "n1");
    assert_eq!(init.node_ids, vec!["n1".to_string(), "n2".to_string()]);
    let copy = init.clone();
    assert_eq!(copy.node_id, "n1");
    assert_eq!(copy.node_ids, vec!["n1".to_string(), "n2".to_string()]);
}

#[test]
fn init_message_with_another_shape_is_malformed() {
    let mut missing = DynamicMap::new();
    missing.insert("node_id".to_string(), Value::String("n1".to_string()));
    let err = deserialize_message_content(&init_message(missing), InitMessage::from_payload).unwrap_err();
    assert_eq!(err.code(), 12);
    assert_eq!(err.text(), "failed to deserialize message `init`");
    assert_eq!(err.cause(), Some("field `node_ids` must be an array of strings"));

    let mut mixed = DynamicMap::new();
    mixed.insert("node_id".to_string(), Value::String("n1".to_string()));
    mixed.insert(
        "node_ids".to_string(),
        Value::Array(vec![Value::String("n1".to_string()), Value::from(2u64)]),
    );
    let err =
        deserialize_message_content(&init_message(mixed), InitMessage::from_payload).unwrap_err();
    assert_eq!(err.cause(), Some("field `node_ids` must be an array of strings"));

    let mut number = DynamicMap::new();
    number.insert("node_id".to_string(), Value::from(1u64));
    number.insert("node_ids".to_string(), Value::Array(vec![]));
    let err =
        deserialize_message_content(&init_message(number), InitMessage::from_payload).unwrap_err();
    assert_eq!(err.code(), 12);
    assert_eq!(err.cause(), Some("field `node_id` must be a string"));

    let mut no_list = DynamicMap::new();
    no_list.insert("node_id".to_string(), Value::String("n1".to_string()));
    no_list.insert("node_ids".to_string(), Value::String("n1".to_string()));
    assert!(deserialize_message_content(&init_message(no_list), InitMessage::from_payload).is_err());
}

#[test]
fn what_a_serializer_could_not_write_fails_with_crash() {
    let given = written(serde_json::to_value(vec![1u8, 2u8])).unwrap();
    assert_eq!(given, Value::Array(vec![Value::from(1u64), Value::from(2u64)]));
    let failure = serde_json::from_str::<Value>("{").unwrap_err();
    let err = written(Err(failure)).unwrap_err();
    assert_eq!(err.code(), 13);
    assert_eq!(err.text(), "message content must serialize to an object");
}
