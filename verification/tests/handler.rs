use maelstrom_node::json::DynamicMap;
use maelstrom_node::protocol::context::MessageContext;
use maelstrom_node::protocol::errors::{ErrorKind, ErrorMessage};
use maelstrom_node::protocol::handler::MessageHandler;
use maelstrom_node::protocol::payload::{Message, MessageBody, MessageContent};
use maelstrom_node::server::handler::MaelstromServerMessageHandler;
use maelstrom_node::server::system_messages::InitMessage;
use serde_json::Value;

fn test_message() -> Message {
    Message {
        src: None,
        dest: None,
        body: MessageBody {
            msg_id: Some(1),
            in_reply_to: None,
            content: MessageContent {
                kind: "test".to_string(),
                data: Default::default(),
            },
        },
    }
}

fn one_field(name: &str, text: &str) -> Value {
    let mut map = DynamicMap::new();
    map.insert(name.to_string(), Value::String(text.to_string()));
    Value::Object(map)
}

struct FailingHandler1;

impl MessageHandler for FailingHandler1 {
    fn new() -> Self {
        Self
    }

    fn get_handled_messages() -> Vec<&'static str> {
        vec!["test"]
    }

    fn init(
        &mut self,
        _node_id: &str,
        _node_ids: &[String],
        _ctx: &mut MessageContext,
    ) -> Result<(), ErrorMessage> {
        Ok(())
    }

    fn handle(&mut self, _ctx: &mut MessageContext) -> Result<(), ErrorMessage> {
        Err(ErrorMessage::new(ErrorKind::Crash, "hello there"))
    }
}

struct FailingHandler2;

impl MessageHandler for FailingHandler2 {
    fn new() -> Self {
        Self
    }

    fn get_handled_messages() -> Vec<&'static str> {
        vec!["test"]
    }

    fn init(
        &mut self,
        _node_id: &str,
        _node_ids: &[String],
        _ctx: &mut MessageContext,
    ) -> Result<(), ErrorMessage> {
        Ok(())
    }

    fn handle(&mut self, _ctx: &mut MessageContext) -> Result<(), ErrorMessage> {
        Err(ErrorMessage::new(ErrorKind::Crash, "hi there"))
    }
}

struct ReplyingHandler1;

impl MessageHandler for ReplyingHandler1 {
    fn new() -> Self {
        Self
    }

    fn get_handled_messages() -> Vec<&'static str> {
        vec!["test"]
    }

    fn init(
        &mut self,
        _node_id: &str,
        _node_ids: &[String],
        _ctx: &mut MessageContext,
    ) -> Result<(), ErrorMessage> {
        Ok(())
    }

    fn handle(&mut self, ctx: &mut MessageContext) -> Result<(), ErrorMessage> {
        ctx.reply("hello", &one_field("foo", "there"))
    }
}

struct ReplyingHandler2;

impl MessageHandler for ReplyingHandler2 {
    fn new() -> Self {
        Self
    }

    fn get_handled_messages() -> Vec<&'static str> {
        vec!["test"]
    }

    fn init(
        &mut self,
        _node_id: &str,
        _node_ids: &[String],
        _ctx: &mut MessageContext,
    ) -> Result<(), ErrorMessage> {
        Ok(())
    }

    fn handle(&mut self, ctx: &mut MessageContext) -> Result<(), ErrorMessage> {
        ctx.reply("hi", &one_field("bar", "wassup"))
    }
}

#[test]
fn test_single_handler() {
    let mut handler = MaelstromServerMessageHandler::new();
    handler.register_handler::<FailingHandler1>();

    let msg = test_message();

    let mut ctx = MessageContext::new(Some(msg));
    let res = handler.handle_message(&mut ctx);

    assert!(res.is_err_and(
        |x| x.code() == usize::from(ErrorKind::Crash) && x.text() == "hello there"
    ));
}

#[test]
fn test_multiple_handlers_success() {
    let mut handler = MaelstromServerMessageHandler::new();
    handler.register_handler::<ReplyingHandler1>();
    handler.register_handler::<ReplyingHandler2>();

    let msg = test_message();

    let mut ctx = MessageContext::new(Some(msg));
    let _ = handler.handle_message(&mut ctx);

    let mut output_iter = ctx.into_output_iter().into_iter();
    let reply1 = output_iter.next().unwrap();
    let reply2 = output_iter.next().unwrap();

    assert!(
        reply1.body.content.kind == "hello"
            && reply1.body.content.data.get("foo")
                == Some(&serde_json::Value::String("there".to_owned()))
    );
    assert!(
        reply2.body.content.kind == "hi"
            && reply2.body.content.data.get("bar")
                == Some(&serde_json::Value::String("wassup".to_owned()))
    );
    assert!(output_iter.next().is_none());
    assert_eq!(reply1.body.msg_id, Some(1));
    assert_eq!(reply2.body.msg_id, Some(2));
}

#[test]
fn test_multiple_handlers_failure() {
    let mut handler = MaelstromServerMessageHandler::new();
    handler.register_handler::<FailingHandler1>();
    handler.register_handler::<FailingHandler2>();

    let msg = test_message();

    let mut ctx = MessageContext::new(Some(msg));
    let res = handler.handle_message(&mut ctx);

    assert!(res.is_err_and(
        |x| x.code() == usize::from(ErrorKind::Crash) && x.text() == "hello there"
    ));
}

#[test]
fn what_was_sent_before_a_failure_stays() {
    let mut handler = MaelstromServerMessageHandler::new();
    handler.register_handler::<ReplyingHandler1>();
    handler.register_handler::<FailingHandler2>();
    handler.register_handler::<ReplyingHandler2>();

    let mut ctx = MessageContext::new(Some(test_message()));
    let res = handler.handle_message(&mut ctx);
    assert!(res.is_err_and(|x| x.text() == "hi there"));

    let sent = ctx.into_output_iter();
    assert_eq!(sent.len(), 1);
    assert_eq!(sent[0].body.content.kind, "hello");
}

#[test]
fn a_kind_without_handler_is_not_supported() {
    let mut handler = MaelstromServerMessageHandler::new();
    handler.register_handler::<ReplyingHandler1>();

    let mut msg = test_message();
    msg.body.content.kind = "bogus".to_string();
    let mut ctx = MessageContext::new(Some(msg));
    let err = handler.handle_message(&mut ctx).unwrap_err();
    assert_eq!(err.code(), 10);
    assert_eq!(err.text(), "message type bogus not supported");
    assert!(ctx.into_output_iter().is_empty());
}

struct Greeter {
    greeting: &'static str,
}

impl MessageHandler for Greeter {
    fn new() -> Self {
        Greeter { greeting: "unset" }
    }

    fn get_handled_messages() -> Vec<&'static str> {
        vec!["greet", "test", "greet"]
    }

    fn init(
        &mut self,
        node_id: &str,
        node_ids: &[String],
        _ctx: &mut MessageContext,
    ) -> Result<(), ErrorMessage> {
        if node_id == "n1" && node_ids.len() == 2 {
            self.greeting = "told";
            Ok(())
        } else {
            Err(ErrorMessage::new(ErrorKind::Abort, "unexpected node"))
        }
    }

    fn handle(&mut self, ctx: &mut MessageContext) -> Result<(), ErrorMessage> {
        ctx.reply("greeting", &one_field("greeting", self.greeting))
    }
}

#[test]
fn a_handler_runs_once_for_each_time_it_declared_the_kind() {
    let mut handler = MaelstromServerMessageHandler::new();
    handler.register(Greeter::new(), &Greeter::get_handled_messages());
    handler.register_handler::<ReplyingHandler2>();

    let mut msg = test_message();
    msg.body.content.kind = "greet".to_string();
    let mut ctx = MessageContext::new(Some(msg));
    assert!(handler.handle_message(&mut ctx).is_ok());
    let sent = ctx.into_output_iter();
    assert_eq!(sent.len(), 2);
    assert_eq!(sent[0].body.content.kind, "greeting");
    assert_eq!(sent[1].body.content.kind, "greeting");

    let mut ctx = MessageContext::new(Some(test_message()));
    assert!(handler.handle_message(&mut ctx).is_ok());
    let sent = ctx.into_output_iter();
    assert_eq!(sent.len(), 2);
    assert_eq!(sent[0].body.content.kind, "greeting");
    assert_eq!(sent[1].body.content.kind, "hi");
}

#[test]
fn handle_init_tells_every_handler_the_node() {
    let mut handler = MaelstromServerMessageHandler::new();
    handler.register_handler::<ReplyingHandler1>();
    handler.register_handler::<Greeter>();

    let init = InitMessage {
        node_id: "n1".to_string(),
        node_ids: vec!["n1".to_string(), "n2".to_string()],
    };
    let mut ctx = MessageContext::new(Some(test_message()));
    assert!(handler.handle_init(&init, &mut ctx).is_ok());
    assert!(ctx.into_output_iter().is_empty());

    let mut msg = test_message();
    msg.body.content.kind = "greet".to_string();
    let mut ctx = MessageContext::new(Some(msg));
    assert!(handler.handle_message(&mut ctx).is_ok());
    let sent = ctx.into_output_iter();
    assert_eq!(
        sent[0].body.content.data.get("greeting"),
        Some(&Value::String("told".to_string()))
    );

    let other = InitMessage { node_id: "n9".to_string(), node_ids: vec![] };
    let mut ctx = MessageContext::new(Some(test_message()));
    let err = handler.handle_init(&other, &mut ctx).unwrap_err();
    assert_eq!(err.code(), 14);
}

struct Refuser;

impl MessageHandler for Refuser {
    fn new() -> Self {
        Refuser
    }

    fn get_handled_messages() -> Vec<&'static str> {
        vec![]
    }

    fn init(
        &mut self,
        _node_id: &str,
        _node_ids: &[String],
        ctx: &mut MessageContext,
    ) -> Result<(), ErrorMessage> {
        ctx.broadcast("refused", &Value::Null)?;
        Err(ErrorMessage::new(ErrorKind::TemporarilyUnavailable, "not now"))
    }

    fn handle(&mut self, _ctx: &mut MessageContext) -> Result<(), ErrorMessage> {
        Ok(())
    }
}

#[test]
fn the_first_handler_that_fails_ends_the_round() {
    let mut handler = MaelstromServerMessageHandler::new();
    handler.register_handler::<ReplyingHandler1>();
    handler.register_handler::<Refuser>();
    handler.register_handler::<Greeter>();

    let init = InitMessage {
        node_id: "n1".to_string(),
        node_ids: vec!["n1".to_string(), "n2".to_string()],
    };
    let mut ctx = MessageContext::new(Some(test_message()));
    let err = handler.handle_init(&init, &mut ctx).unwrap_err();
    assert_eq!(err.code(), 11);
    assert_eq!(err.text(), "not now");
    let sent = ctx.into_output_iter();
    assert_eq!(sent.len(), 1);
    assert_eq!(sent[0].body.content.kind, "refused");

    let mut msg = test_message();
    msg.body.content.kind = "greet".to_string();
    let mut ctx = MessageContext::new(Some(msg));
    assert!(handler.handle_message(&mut ctx).is_ok());
    let sent = ctx.into_output_iter();
    assert_eq!(
        sent[0].body.content.data.get("greeting"),
        Some(&Value::String("unset".to_string()))
    );
}

#[test]
fn a_handler_may_take_no_notice_of_the_node() {
    let mut handler = ReplyingHandler1::new();
    let mut ctx = MessageContext::new(Some(test_message()));
    assert!(handler.init("n1", &["n1".to_string()], &mut ctx).is_ok());
    assert_eq!(ctx.remaining(), usize::MAX - 1);
    assert!(ctx.into_output_iter().is_empty());
}

#[test]
fn a_round_without_handlers_succeeds() {
    let mut handler = MaelstromServerMessageHandler::new();
    let init = InitMessage { node_id: "n1".to_string(), node_ids: vec![] };
    let mut ctx = MessageContext::new(Some(test_message()));
    assert!(handler.handle_init(&init, &mut ctx).is_ok());
    assert!(ctx.into_output_iter().is_empty());
}
