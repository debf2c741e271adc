use maelstrom_node::json::DynamicMap;
use maelstrom_node::protocol::context::MessageContext;
use maelstrom_node::protocol::errors::{ErrorKind, ErrorMessage};
use maelstrom_node::protocol::payload::{Message, MessageBody, MessageContent};
use maelstrom_node::protocol::serialization::open_mapping;
use maelstrom_node::server::sender::MaelstromServerMessageSender;
use serde_json::Value;

fn inbound() -> Message {
    let mut data = DynamicMap::new();
    data.insert("key".to_string(), Value::String("value".to_string()));
    Message {
        src: Some("c3".to_string()),
        dest: Some("n1".to_string()),
        body: MessageBody {
            msg_id: Some(41),
            in_reply_to: Some(7),
            content: MessageContent { kind: "read".to_string(), data },
        },
    }
}

fn empty_object() -> Value {
    Value::Object(DynamicMap::new())
}

#[test]
fn accessors_read_the_inbound_message() {
    let ctx = MessageContext::new(Some(inbound()));
    assert_eq!(ctx.message_kind(), "read");
    assert_eq!(ctx.message_src(), Some("c3"));
    assert_eq!(ctx.message_dest(), Some("n1"));
    assert_eq!(ctx.message_id(), Some(41));
    assert_eq!(ctx.message_in_reply_to(), Some(7));
    assert!(ctx.available_node_ids().is_empty());
    let data = ctx.message_content(open_mapping).unwrap();
    assert_eq!(data.get("key"), Some(&Value::String("value".to_string())));
}

#[test]
fn a_context_without_message_has_the_empty_kind() {
    let ctx = MessageContext::empty();
    assert_eq!(ctx.message_kind(), "");
    assert_eq!(ctx.message_src(), None);
    assert_eq!(ctx.message_dest(), None);
    assert_eq!(ctx.message_id(), None);
    assert_eq!(ctx.message_in_reply_to(), None);
    let err = ctx.message_content(open_mapping).unwrap_err();
    assert_eq!(err.code(), 12);
    assert_eq!(err.text(), "message not available");
    assert_eq!(err.cause(), None);
}

#[test]
fn message_content_fails_where_the_decoder_refuses() {
    let ctx = MessageContext::new(Some(inbound()));
    let err = ctx
        .message_content(|_data: &DynamicMap| Err::<u8, String>("not a byte".to_string()))
        .unwrap_err();
    assert_eq!(err.code(), 12);
    assert_eq!(err.text(), "failed to deserialize message `read`");
    assert_eq!(err.cause(), Some("not a byte"));
    let len = ctx
        .message_content(|data: &DynamicMap| Ok::<usize, String>(data.len()))
        .unwrap();
    assert_eq!(len, 1);
}

#[test]
fn reply_addresses_the_sender_of_the_inbound_message() {
    let mut ctx = MessageContext::new(Some(inbound()));
    let mut data = DynamicMap::new();
    data.insert("value".to_string(), Value::from(3u64));
    assert!(ctx.reply("read_ok", &Value::Object(data.clone())).is_ok());
    let sent = ctx.drain();
    assert_eq!(sent.len(), 1);
    assert_eq!(sent[0].src, None);
    assert_eq!(sent[0].dest, Some("c3".to_string()));
    assert_eq!(sent[0].body.msg_id, Some(1));
    assert_eq!(sent[0].body.in_reply_to, Some(41));
    assert_eq!(sent[0].body.content.kind, "read_ok");
    assert_eq!(sent[0].body.content.data, data);
    assert!(ctx.drain().is_empty());
    assert!(ctx.reply("read_ok", &Value::Null).is_ok());
    let sent = ctx.into_output_iter();
    assert_eq!(sent.len(), 1);
    assert_eq!(sent[0].body.msg_id, Some(2));
    assert!(sent[0].body.content.data.is_empty());
}

#[test]
fn reply_without_inbound_message_has_no_destination() {
    let mut ctx = MessageContext::empty();
    assert!(ctx.reply("note", &empty_object()).is_ok());
    let sent = ctx.into_output_iter();
    assert_eq!(sent[0].dest, None);
    assert_eq!(sent[0].body.in_reply_to, None);
}

#[test]
fn broadcast_has_no_destination_and_replies_to_nothing() {
    let mut ctx = MessageContext::new(Some(inbound())).with_node_ids(&[
        "n1".to_string(),
        "n2".to_string(),
    ]);
    assert!(ctx.broadcast("note", &empty_object()).is_ok());
    let sent = ctx.into_output_iter();
    assert_eq!(sent.len(), 1);
    assert_eq!(sent[0].dest, None);
    assert_eq!(sent[0].body.in_reply_to, None);
    assert_eq!(sent[0].body.msg_id, Some(1));
    assert_eq!(sent[0].body.content.kind, "note");
}

#[test]
fn fan_out_sends_one_envelope_to_every_peer() {
    let mut ctx = MessageContext::new(Some(inbound()));
    ctx.set_node("n1", &["n1".to_string(), "n2".to_string(), "n3".to_string()]);
    assert_eq!(ctx.available_node_ids().len(), 3);
    assert!(ctx.fan_out("x", &empty_object()).is_ok());
    let sent = ctx.into_output_iter();
    assert_eq!(sent.len(), 3);
    let dests: Vec<Option<String>> = sent.iter().map(|m| m.dest.clone()).collect();
    assert_eq!(
        dests,
        vec![Some("n1".to_string()), Some("n2".to_string()), Some("n3".to_string())]
    );
    let ids: Vec<Option<usize>> = sent.iter().map(|m| m.body.msg_id).collect();
    assert_eq!(ids, vec![Some(1), Some(2), Some(3)]);
    for msg in sent.iter() {
        assert_eq!(msg.body.in_reply_to, None);
        assert_eq!(msg.src, Some("n1".to_string()));
        assert_eq!(msg.body.content.kind, "x");
        assert!(msg.body.content.data.is_empty());
    }
}

#[test]
fn a_payload_that_is_no_object_fails_with_crash_and_sends_nothing() {
    let mut ctx = MessageContext::new(Some(inbound())).with_node_ids(&["n2".to_string()]);
    let err = ctx.reply("x", &Value::from(1u64)).unwrap_err();
    assert_eq!(err.code(), usize::from(ErrorKind::Crash));
    assert_eq!(err.text(), "message content must serialize to an object");
    assert!(ctx.broadcast("x", &Value::String("s".to_string())).is_err());
    assert!(ctx.fan_out("x", &Value::Array(vec![])).is_err());
    assert_eq!(ctx.remaining(), usize::MAX - 1);
    assert!(ctx.into_output_iter().is_empty());
}

#[test]
fn error_replies_with_code_and_text() {
    let mut ctx = MessageContext::new(Some(inbound()));
    let err = ErrorMessage::new(ErrorKind::KeyDoesNotExist, "no key").with_cause("private");
    assert!(ctx.error(&err).is_ok());
    let sent = ctx.into_output_iter();
    assert_eq!(sent.len(), 1);
    assert_eq!(sent[0].body.content.kind, "error");
    assert_eq!(sent[0].dest, Some("c3".to_string()));
    assert_eq!(sent[0].body.in_reply_to, Some(41));
    assert_eq!(sent[0].body.content.data.len(), 2);
    assert_eq!(sent[0].body.content.data.get("code"), Some(&Value::from(20u64)));
    assert_eq!(
        sent[0].body.content.data.get("text"),
        Some(&Value::String("no key".to_string()))
    );
}

#[test]
fn a_context_goes_on_with_the_sequencer_that_it_is_given() {
    let mut sender = MaelstromServerMessageSender::new();
    sender.set_node_id("n4");
    sender.send("warm-up", DynamicMap::new(), None, None);
    let _ = sender.drain();
    let mut ctx = MessageContext::empty().with_message(inbound()).with_sender(sender);
    assert!(ctx.reply("read_ok", &empty_object()).is_ok());
    let sent = ctx.drain();
    assert_eq!(sent[0].body.msg_id, Some(2));
    assert_eq!(sent[0].src, Some("n4".to_string()));
    let mut sender = ctx.into_sender();
    sender.send("later", DynamicMap::new(), None, None);
    assert_eq!(sender.pop().unwrap().body.msg_id, Some(3));
}

#[test]
fn message_copies_and_names_its_kind() {
    let msg = inbound();
    assert_eq!(msg.kind(), "read");
    let copy = msg.clone();
    assert_eq!(copy, msg);
    let body = msg.body.clone();
    assert_eq!(body, msg.body);
    let content = msg.body.content.clone();
    assert_eq!(content, msg.body.content);
}
