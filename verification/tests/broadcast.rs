use wasabi::broadcast::BroadcastHub;
use wasabi::broadcast::RecvOutcome;
use wasabi::broadcast::SubscriberQueue;
use wasabi::common::on_key_press;
use wasabi::keybindings::Key;
use wasabi::keybindings::Keybindings;
use wasabi::message::Message;
use wasabi::session::Session;
use wasabi::session::WriteEvent;
use wasabi::ws_settings::WebSocketSettings;

#[test]
fn every_subscriber_observes_a_publication_exactly_once() {
    let mut hub = BroadcastHub::new(4);
    let a = hub.subscribe();
    let b = hub.subscribe();
    assert_eq!(hub.receiver_count(), 2);

    hub.publish(&Message::Text("fan out".to_string()));

    for id in [a, b] {
        match hub.recv_at(id) {
            RecvOutcome::Msg(Message::Text(t)) => assert_eq!(t, "fan out"),
            other => panic!("subscriber must observe the message once: {:?}", other),
        }
        match hub.recv_at(id) {
            RecvOutcome::Empty => {}
            other => panic!("subscriber must observe the message only once: {:?}", other),
        }
    }
}

#[test]
fn a_lagging_subscriber_gets_a_drop_signal_instead_of_a_duplication() {
    let mut queue = SubscriberQueue::new(1);
    queue.publish_one(&Message::Text("old".to_string()));
    queue.publish_one(&Message::Text("new".to_string()));

    // The oldest entry was shed; the drop is reported once, explicitly.
    match queue.recv() {
        RecvOutcome::Lagged(n) => assert_eq!(n, 1),
        other => panic!("expected the explicit drop signal first: {:?}", other),
    }
    match queue.recv() {
        RecvOutcome::Msg(Message::Text(t)) => assert_eq!(t, "new"),
        other => panic!("the newest entry must survive: {:?}", other),
    }
    match queue.recv() {
        RecvOutcome::Empty => {}
        other => panic!("nothing further may be observed: {:?}", other),
    }
}

#[test]
fn order_is_preserved_within_a_queue() {
    let mut queue = SubscriberQueue::new(8);
    queue.publish_one(&Message::Text("first".to_string()));
    queue.publish_one(&Message::Text("second".to_string()));
    queue.publish_one(&Message::Text("third".to_string()));
    for expected in ["first", "second", "third"] {
        match queue.recv() {
            RecvOutcome::Msg(Message::Text(t)) => assert_eq!(t, expected),
            other => panic!("order must be preserved: {:?}", other),
        }
    }
}

#[test]
fn ping_trigger_key_reaches_both_open_sessions_once() {
    // Two open, subscribed sessions; the default ping-trigger key is
    // pressed once: both outbound streams observe exactly one ping, and
    // no pong appears unless a peer replies.
    let table = Keybindings::new();
    let mut hub = BroadcastHub::new(4);
    let a = hub.subscribe();
    let b = hub.subscribe();

    let step = on_key_press(Key::Char('p'), Some(&table), hub.receiver_count() > 0);
    assert!(!step.quit);
    let message = step.publish.expect("the ping trigger is bound");
    hub.publish(&message);

    let settings = WebSocketSettings::default();
    for id in [a, b] {
        let mut session = Session::new(&settings);
        session.on_handshake_complete();
        match hub.recv_at(id) {
            RecvOutcome::Msg(m) => {
                let step = session.on_write_event(&WriteEvent::Broadcast(m));
                match step.frame {
                    Some(Message::Ping(payload)) => assert!(payload.is_empty()),
                    other => panic!("each session must send one ping: {:?}", other),
                }
            }
            other => panic!("each session must receive the broadcast: {:?}", other),
        }
        match hub.recv_at(id) {
            RecvOutcome::Empty => {}
            other => panic!("no second observation: {:?}", other),
        }
    }
}

#[test]
fn unbound_key_and_quit_key_publish_nothing() {
    let table = Keybindings::new();
    let step = on_key_press(Key::Char('z'), Some(&table), true);
    assert!(!step.quit);
    assert!(step.publish.is_none());

    let step = on_key_press(Key::Ctrl('c'), Some(&table), true);
    assert!(step.quit);
    assert!(step.publish.is_none());
}

#[test]
fn no_receivers_means_nothing_is_published() {
    let table = Keybindings::new();
    let step = on_key_press(Key::Char('p'), Some(&table), false);
    assert!(!step.quit);
    assert!(step.publish.is_none());
}

#[test]
fn no_table_means_nothing_is_published() {
    let step = on_key_press(Key::Char('p'), None, true);
    assert!(!step.quit);
    assert!(step.publish.is_none());
}
