use maelstrom_node::json::DynamicMap;
use maelstrom_node::messages::echo::{EchoMessageContent, EchoMessageHandler};
use maelstrom_node::protocol::context::MessageContext;
use maelstrom_node::protocol::handler::MessageHandler;
use maelstrom_node::protocol::payload::{Message, MessageBody, MessageContent};
use serde_json::Value;

#[test]
fn test_echo_message_handler() {
    let mut handler = EchoMessageHandler;

    let mut echo_data = DynamicMap::new();
    echo_data.insert("echo".to_string(), Value::String("hello".to_string()));

    let mut ctx = MessageContext::new(Some(Message {
        src: Some("n2".to_string()),
        dest: Some("n1".to_string()),
        body: MessageBody {
            msg_id: Some(123),
            in_reply_to: None,
            content: MessageContent {
                kind: "echo".to_string(),
                data: echo_data.clone(),
            },
        },
    }));
    let res = handler.handle(&mut ctx);

    if let Err(err) = &res {
        println!("{}", err.to_string());
    }

    assert!(res.is_ok());

    let response = ctx.into_output_iter().into_iter().next().unwrap();

    assert_eq!(response.body.content.data, echo_data);
    assert_eq!(response.dest, Some("n2".to_string()));
    assert_eq!(response.body.in_reply_to, Some(123));
    assert_eq!(response.body.content.kind, "echo_ok");
    assert_eq!(response.body.msg_id, Some(1));
    assert_eq!(response.src, None);
}

#[test]
fn echo_handler_declares_echo() {
    assert_eq!(EchoMessageHandler::get_handled_messages(), vec!["echo"]);
}

#[test]
fn echo_without_text_is_malformed() {
    let mut handler = EchoMessageHandler::new();
    let mut data = DynamicMap::new();
    data.insert("echo".to_string(), Value::from(5u64));
    let mut ctx = MessageContext::new(Some(Message {
        src: Some("c1".to_string()),
        dest: Some("n1".to_string()),
        body: MessageBody {
            msg_id: Some(1),
            in_reply_to: None,
            content: MessageContent { kind: "echo".to_string(), data },
        },
    }));
    let err = handler.handle(&mut ctx).unwrap_err();
    assert_eq!(err.code(), 12);
    assert_eq!(err.text(), "failed to deserialize message `echo`");
    assert_eq!(err.cause(), Some("field `echo` must be a string"));
    assert!(ctx.into_output_iter().is_empty());

    let mut ctx = MessageContext::empty();
    let err = handler.handle(&mut ctx).unwrap_err();
    assert_eq!(err.code(), 12);
    assert_eq!(err.text(), "message not available");
}

#[test]
fn echo_content_is_written_and_read() {
    let content = EchoMessageContent { echo: "abc".to_string() };
    let value = content.to_value();
    let map = value.as_object().unwrap();
    assert_eq!(map.len(), 1);
    assert_eq!(map.get("echo"), Some(&Value::String("abc".to_string())));
    let back = EchoMessageContent::from_payload(map).unwrap();
    assert_eq!(back, content);
    assert_eq!(
        EchoMessageContent::from_payload(&DynamicMap::new()),
        Err("field `echo` must be a string".to_string())
    );
}
