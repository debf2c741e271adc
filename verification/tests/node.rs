use maelstrom_node::json::DynamicMap;
use maelstrom_node::protocol::context::MessageContext;
use maelstrom_node::protocol::payload::{Message, MessageBody, MessageContent};
use maelstrom_node::server::node::MaelstromServerNode;
use serde_json::Value;

fn init(data: DynamicMap) -> Message {
    Message {
        src: Some("c1".to_string()),
        dest: Some("n2".to_string()),
        body: MessageBody {
            msg_id: Some(4),
            in_reply_to: None,
            content: MessageContent { kind: "init".to_string(), data },
        },
    }
}

#[test]
fn create_names_the_node_and_acknowledges() {
    let mut data = DynamicMap::new();
    data.insert("node_id".to_string(), Value::String("n2".to_string()));
    data.insert(
        "node_ids".to_string(),
        Value::Array(vec![Value::String("n1".to_string()), Value::String("n2".to_string())]),
    );
    let mut ctx = MessageContext::new(Some(init(data)));
    let node = MaelstromServerNode::create(&mut ctx).unwrap();
    assert_eq!(node.node_id, Some("n2".to_string()));
    assert_eq!(node.node_ids, vec!["n1".to_string(), "n2".to_string()]);
    assert_eq!(ctx.available_node_ids(), &vec!["n1".to_string(), "n2".to_string()]);
    let sent = ctx.into_output_iter();
    assert_eq!(sent.len(), 1);
    assert_eq!(sent[0].src, Some("n2".to_string()));
    assert_eq!(sent[0].dest, Some("c1".to_string()));
    assert_eq!(sent[0].body.in_reply_to, Some(4));
    assert_eq!(sent[0].body.msg_id, Some(1));
    assert_eq!(sent[0].body.content.kind, "init_ok");
    assert!(sent[0].body.content.data.is_empty());
}

#[test]
fn create_fails_without_a_node_in_the_payload() {
    let mut ctx = MessageContext::new(Some(init(DynamicMap::new())));
    let err = MaelstromServerNode::create(&mut ctx).unwrap_err();
    assert_eq!(err.code(), 12);
    assert_eq!(err.text(), "failed to deserialize message `init`");
    assert!(ctx.available_node_ids().is_empty());
    assert!(ctx.into_output_iter().is_empty());

    let mut ctx = MessageContext::empty();
    let err = MaelstromServerNode::create(&mut ctx).unwrap_err();
    assert_eq!(err.code(), 12);
    assert_eq!(err.text(), "message not available");
}
