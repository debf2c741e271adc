use maelstrom_node::echo::{EchoMessageContent, EchoMessageHandler};

#[test]
fn echo_test_echo_message_handler() {
    let mut handler = EchoMessageHandler;
    let msg = EchoMessageContent::Echo {
        echo: "hello".to_string(),
    };
    let response = handler.handle(msg).unwrap();
    assert_eq!(
        response,
        Some(EchoMessageContent::EchoOk {
            echo: "hello".to_string()
        })
    );
}

#[test]
fn an_answer_is_not_answered() {
    let mut handler = EchoMessageHandler::new();
    let msg = EchoMessageContent::EchoOk {
        echo: "hello".to_string(),
    };
    assert_eq!(handler.handle(msg).unwrap(), None);
}
