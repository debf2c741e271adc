use maelstrom_node::json::DynamicMap;
use maelstrom_node::server::sender::MaelstromServerMessageSender;
use serde_json::Value;

#[test]
fn test_fan_out() {
    let mut sender = MaelstromServerMessageSender::new();
    sender.set_node_ids(&["n1".to_owned(), "n2".to_owned()]);

    sender.fan_out("test", Default::default());

    let mut outgoing_msgs = sender.drain();
    assert_eq!(outgoing_msgs.len(), 2);

    let msg = outgoing_msgs.remove(0);
    assert_eq!(msg.dest, Some("n1".to_owned()));

    let msg = outgoing_msgs.remove(0);
    assert_eq!(msg.dest, Some("n2".to_owned()));
}

#[test]
fn send_numbers_from_one_and_stamps_the_node() {
    let mut sender = MaelstromServerMessageSender::new();
    assert_eq!(sender.remaining(), usize::MAX - 1);
    let mut data = DynamicMap::new();
    data.insert("k".to_string(), Value::Bool(true));
    sender.send("first", data.clone(), Some("c1"), Some(9));
    sender.set_node_id("n1");
    sender.send("second", DynamicMap::new(), None, None);
    assert_eq!(sender.remaining(), usize::MAX - 3);

    let first = sender.pop().unwrap();
    assert_eq!(first.src, None);
    assert_eq!(first.dest, Some("c1".to_string()));
    assert_eq!(first.body.msg_id, Some(1));
    assert_eq!(first.body.in_reply_to, Some(9));
    assert_eq!(first.body.content.kind, "first");
    assert_eq!(first.body.content.data, data);

    let second = sender.pop().unwrap();
    assert_eq!(second.src, Some("n1".to_string()));
    assert_eq!(second.dest, None);
    assert_eq!(second.body.msg_id, Some(2));
    assert_eq!(second.body.in_reply_to, None);
    assert_eq!(second.body.content.kind, "second");
    assert!(second.body.content.data.is_empty());

    assert!(sender.pop().is_none());
    sender.send("third", DynamicMap::new(), None, None);
    assert_eq!(sender.pop().unwrap().body.msg_id, Some(3));
}

#[test]
fn fan_out_gives_every_peer_its_own_identifier() {
    let mut sender = MaelstromServerMessageSender::new();
    sender.set_node_id("n1");
    sender.set_node_ids(&["n1".to_owned(), "n2".to_owned(), "n3".to_owned()]);
    assert_eq!(sender.node_ids().len(), 3);
    let mut data = DynamicMap::new();
    data.insert("v".to_string(), Value::from(1u64));
    sender.fan_out("x", data.clone());
    let sent = sender.drain();
    assert_eq!(sent.len(), 3);
    for (i, msg) in sent.iter().enumerate() {
        assert_eq!(msg.src, Some("n1".to_string()));
        assert_eq!(msg.dest, Some(format!("n{}", i + 1)));
        assert_eq!(msg.body.msg_id, Some(i + 1));
        assert_eq!(msg.body.in_reply_to, None);
        assert_eq!(msg.body.content.kind, "x");
        assert_eq!(msg.body.content.data, data);
    }
    assert!(sender.drain().is_empty());
}

#[test]
fn fan_out_without_peers_sends_nothing() {
    let mut sender = MaelstromServerMessageSender::new();
    sender.fan_out("x", DynamicMap::new());
    assert!(sender.pop().is_none());
    assert_eq!(sender.remaining(), usize::MAX - 1);
}
