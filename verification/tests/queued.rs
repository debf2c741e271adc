use maelstrom_node::messages::echo::EchoMessageHandler;
use maelstrom_node::server::queued::MaelstromServer;

#[test]
fn answers_are_taken_out_one_at_a_time_in_order() {
    let mut server = MaelstromServer::new();
    server.register_handler::<EchoMessageHandler>();
    assert!(server.output().is_none());

    server.input(r#"{"src":"c1","body":{"type":"echo","echo":"early","msg_id":1}}"#);
    server.input(
        r#"{"src":"c1","body":{"type":"init","node_id":"n1","node_ids":["n1"],"msg_id":2}}"#,
    );
    server.input(r#"{"src":"c1","body":{"type":"echo","echo":"now","msg_id":3}}"#);

    let first = server.output().unwrap();
    assert_eq!(first.body.content.kind, "error");
    assert_eq!(first.body.msg_id, Some(1));
    assert_eq!(first.src, None);
    let second = server.output().unwrap();
    assert_eq!(second.body.content.kind, "init_ok");
    assert_eq!(second.body.msg_id, Some(2));
    assert_eq!(second.src, Some("n1".to_string()));
    let third = server.output().unwrap();
    assert_eq!(third.body.content.kind, "echo_ok");
    assert_eq!(third.body.msg_id, Some(3));
    assert_eq!(third.body.in_reply_to, Some(3));
    assert!(server.output().is_none());
}
