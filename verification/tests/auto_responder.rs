use wasabi::auto_responder::auto_respond;
use wasabi::message::Message;

#[test]
fn ping_earns_exactly_one_pong_when_auto_pong_is_set() {
    let ping = Message::Ping(vec![1, 2, 3]);
    match auto_respond(&ping, true) {
        Some(Message::Pong(payload)) => assert_eq!(payload, vec![1, 2, 3]),
        other => panic!("expected one pong echoing the payload: {:?}", other),
    }
}

#[test]
fn ping_earns_nothing_when_auto_pong_is_clear() {
    let ping = Message::Ping(vec![1, 2, 3]);
    assert!(auto_respond(&ping, false).is_none());
}

#[test]
fn non_ping_frames_earn_nothing_even_with_auto_pong_set() {
    assert!(auto_respond(&Message::Text("hello".to_string()), true).is_none());
    assert!(auto_respond(&Message::Binary(vec![9]), true).is_none());
    assert!(auto_respond(&Message::Pong(vec![]), true).is_none());
    assert!(auto_respond(&Message::Close(None), true).is_none());
}
