use maelstrom_node::json::DynamicMap;
use maelstrom_node::messages::generate_id::{
    GenerateIdMessageContent, GenerateIdMessageHandler, GenerateIdOkMessageContent,
};
use maelstrom_node::protocol::context::MessageContext;
use maelstrom_node::protocol::handler::MessageHandler;
use maelstrom_node::protocol::payload::{Message, MessageBody, MessageContent};
use serde_json::Value;

fn request(kind: &str) -> Message {
    Message {
        src: Some("c1".to_string()),
        dest: Some("n1".to_string()),
        body: MessageBody {
            msg_id: Some(5),
            in_reply_to: None,
            content: MessageContent { kind: kind.to_string(), data: DynamicMap::new() },
        },
    }
}

fn id_of(msg: &Message) -> String {
    msg.body.content.data.get("id").and_then(|v| v.as_str()).unwrap().to_string()
}

#[test]
fn generate_fails_before_the_handler_knows_the_node() {
    let mut handler = GenerateIdMessageHandler::new();
    let mut ctx = MessageContext::new(Some(request("generate")));
    let err = handler.handle(&mut ctx).unwrap_err();
    assert_eq!(err.code(), 11);
    assert_eq!(err.text(), "node not initialized");
    assert!(ctx.into_output_iter().is_empty());
}

#[test]
fn generate_answers_with_the_bytes_of_the_node() {
    let mut handler = GenerateIdMessageHandler::new();
    let mut ctx = MessageContext::new(Some(request("generate")));
    assert!(handler.init("n258", &[], &mut ctx).is_ok());
    assert!(handler.handle(&mut ctx).is_ok());
    assert!(handler.handle(&mut ctx).is_ok());
    let sent = ctx.into_output_iter();
    assert_eq!(sent.len(), 2);
    assert_eq!(sent[0].body.content.kind, "generate_ok");
    assert_eq!(sent[0].dest, Some("c1".to_string()));
    assert_eq!(sent[0].body.in_reply_to, Some(5));
    let first = id_of(&sent[0]);
    let second = id_of(&sent[1]);
    assert_eq!(first.len(), 36);
    assert!(first.ends_with("-020100000000"));
    assert!(second.ends_with("-020100000000"));
    assert_ne!(first, second);
    assert_eq!(first.as_bytes()[14], b'6');
}

#[test]
fn the_bytes_of_the_node_are_the_low_bytes_of_its_number() {
    let mut handler = GenerateIdMessageHandler::new();
    let mut ctx = MessageContext::new(Some(request("generate")));
    assert!(handler.init("x281474976710657", &[], &mut ctx).is_ok());
    assert!(handler.handle(&mut ctx).is_ok());
    assert!(handler.init("n+1108152157446", &[], &mut ctx).is_ok());
    assert!(handler.handle(&mut ctx).is_ok());
    let sent = ctx.into_output_iter();
    assert!(id_of(&sent[0]).ends_with("-010000000000"));
    assert!(id_of(&sent[1]).ends_with("-060504030201"));
}

#[test]
fn a_name_without_number_is_malformed() {
    let mut handler = GenerateIdMessageHandler::new();
    let mut ctx = MessageContext::new(Some(request("generate")));
    for name in ["", "n", "node", "n-1", "n1x", "12a", "n 1"] {
        let err = handler.init(name, &[], &mut ctx).unwrap_err();
        assert_eq!(err.code(), 12);
        assert_eq!(err.text(), format!("failed to parse node id `{}`", name));
        assert_eq!(err.cause(), Some("invalid decimal number"));
    }
    assert!(handler.handle(&mut ctx).is_err());
    assert!(handler.init("é7", &[], &mut ctx).is_ok());
    assert!(handler.handle(&mut ctx).is_ok());
    assert!(handler.init("n", &[], &mut ctx).is_err());
    assert!(handler.handle(&mut ctx).is_ok());
    let sent = ctx.into_output_iter();
    assert_eq!(sent.len(), 2);
    assert!(id_of(&sent[0]).ends_with("-070000000000"));
    assert!(id_of(&sent[1]).ends_with("-070000000000"));
}

#[test]
fn another_kind_is_not_supported() {
    let mut handler = GenerateIdMessageHandler::new();
    let mut ctx = MessageContext::new(Some(request("generate_id")));
    assert!(handler.init("n1", &[], &mut ctx).is_ok());
    let err = handler.handle(&mut ctx).unwrap_err();
    assert_eq!(err.code(), 10);
    assert_eq!(err.text(), "message type generate_id not supported");
    assert!(ctx.into_output_iter().is_empty());
}

#[test]
fn the_handler_declares_generate() {
    assert_eq!(GenerateIdMessageHandler::get_handled_messages(), vec!["generate"]);
}

#[test]
fn reply_with_sends_the_identifier() {
    let mut ctx = MessageContext::new(Some(request("generate")));
    assert!(GenerateIdMessageHandler::reply_with(&mut ctx, "abc".to_string()).is_ok());
    let sent = ctx.into_output_iter();
    assert_eq!(sent.len(), 1);
    assert_eq!(id_of(&sent[0]), "abc");
    assert_eq!(sent[0].body.content.data.len(), 1);
}

#[test]
fn contents_are_written_as_documents() {
    assert_eq!(GenerateIdMessageContent.to_value(), Value::Null);
    let ok = GenerateIdOkMessageContent { id: "i".to_string() };
    let value = ok.to_value();
    assert_eq!(value.as_object().unwrap().len(), 1);
    assert_eq!(value.get("id"), Some(&Value::String("i".to_string())));
}
