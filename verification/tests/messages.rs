use wasabi::common;
use wasabi::common::outbound_log_class;
use wasabi::common::LogClass;
use wasabi::common_messages;
use wasabi::message::Message;

#[test]
fn the_plain_probe_and_close_messages() {
    match common::ping() {
        Message::Ping(payload) => assert!(payload.is_empty()),
        other => panic!("expected an empty ping: {:?}", other),
    }
    match common::close() {
        Message::Close(Some(frame)) => {
            assert_eq!(frame.code, 1000);
            assert_eq!(frame.reason, "connection close");
        }
        other => panic!("expected a normal close: {:?}", other),
    }
}

#[test]
fn the_labelled_probe_and_reply_messages() {
    match common_messages::ping() {
        Message::Ping(payload) => assert_eq!(payload, b"ping".to_vec()),
        other => panic!("expected the labelled ping: {:?}", other),
    }
    match common_messages::pong() {
        Message::Pong(payload) => assert_eq!(payload, b"pong".to_vec()),
        other => panic!("expected the labelled pong: {:?}", other),
    }
    match common_messages::close() {
        Message::Close(Some(frame)) => assert_eq!(frame.code, 1000),
        other => panic!("expected a normal close: {:?}", other),
    }
}

#[test]
fn cloning_keeps_a_message_intact() {
    let original = Message::Text("payloads are never mutated".to_string());
    let copy = original.clone();
    assert_eq!(copy, original);

    let original = Message::Binary(vec![0, 1, 2, 255]);
    let copy = original.clone();
    assert_eq!(copy, original);

    let original = common::close();
    let copy = original.clone();
    assert_eq!(copy, original);
}

#[test]
fn outbound_logging_covers_text_ping_and_pong() {
    assert_eq!(outbound_log_class(&Message::Text("x".to_string())), Some(LogClass::Text));
    assert_eq!(outbound_log_class(&common::ping()), Some(LogClass::Ping));
    assert_eq!(outbound_log_class(&common_messages::pong()), Some(LogClass::Pong));
    assert_eq!(outbound_log_class(&Message::Binary(vec![1])), None);
    assert_eq!(outbound_log_class(&common::close()), None);
}
