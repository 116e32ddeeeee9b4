use wasabi::common::LogClass;
use wasabi::message::Message;
use wasabi::session::ReadEnd;
use wasabi::session::Session;
use wasabi::session::SessionError;
use wasabi::session::SessionState;
use wasabi::session::WriteEnd;
use wasabi::session::WriteEvent;
use wasabi::ws_settings::WebSocketSettings;

fn open_session(settings: &WebSocketSettings) -> Session {
    let mut session = Session::new(settings);
    session.on_handshake_complete();
    session
}

#[test]
fn connect_message_is_the_first_frame_on_the_wire() {
    // Settings { on_connect_message = Text("hello"), auto_pong = false }.
    let settings = WebSocketSettings::builder()
        .on_connect_message(Message::Text("hello".to_string()))
        .build()
        .expect("settings should build");
    assert!(!settings.auto_pong);

    let mut session = Session::new(&settings);
    assert_eq!(session.state, SessionState::Handshaking);
    let greeting = session.on_handshake_complete();
    match greeting {
        Some(Message::Text(t)) => assert_eq!(t, "hello"),
        other => panic!("the first frame must be the greeting: {:?}", other),
    }
    assert_eq!(session.state, SessionState::Open);
}

#[test]
fn no_connect_message_means_no_greeting_frame() {
    let settings = WebSocketSettings::default();
    let mut session = Session::new(&settings);
    assert!(session.on_handshake_complete().is_none());
    assert_eq!(session.state, SessionState::Open);
}

#[test]
fn handshake_failure_closes_the_session_before_any_task_runs() {
    let settings = WebSocketSettings::default();
    let mut session = Session::new(&settings);
    let err = session.on_handshake_failure();
    assert_eq!(err, SessionError::HandshakeError);
    assert_eq!(session.state, SessionState::Closed);
    assert!(!session.read_running && !session.write_running);
}

#[test]
fn inbound_ping_is_answered_with_exactly_one_pong() {
    let settings = WebSocketSettings::builder()
        .auto_pong()
        .build()
        .expect("settings should build");
    let session = open_session(&settings);

    let step = session.on_inbound_frame(&Message::Ping(vec![7, 8]));
    assert!(!step.stop);
    match step.reply {
        Some(Message::Pong(payload)) => assert_eq!(payload, vec![7, 8]),
        other => panic!("expected one pong for the ping: {:?}", other),
    }

    // A second, distinct ping earns its own single pong; nothing else does.
    let step = session.on_inbound_frame(&Message::Text("hi".to_string()));
    assert!(step.reply.is_none());
}

#[test]
fn inbound_ping_is_ignored_without_auto_pong() {
    let settings = WebSocketSettings::default();
    let session = open_session(&settings);
    let step = session.on_inbound_frame(&Message::Ping(vec![7, 8]));
    assert!(step.reply.is_none());
    assert!(!step.stop);
}

#[test]
fn incoming_logging_covers_text_and_pong_only() {
    let settings = WebSocketSettings::builder()
        .log_incoming_messages()
        .build()
        .expect("settings should build");
    let session = open_session(&settings);

    let step = session.on_inbound_frame(&Message::Text("hi".to_string()));
    assert_eq!(step.log, Some(LogClass::Text));
    let step = session.on_inbound_frame(&Message::Pong(vec![]));
    assert_eq!(step.log, Some(LogClass::Pong));
    let step = session.on_inbound_frame(&Message::Ping(vec![]));
    assert_eq!(step.log, None);
    let step = session.on_inbound_frame(&Message::Binary(vec![1]));
    assert_eq!(step.log, None);
}

#[test]
fn incoming_logging_is_silent_when_disabled() {
    let settings = WebSocketSettings::default();
    let session = open_session(&settings);
    let step = session.on_inbound_frame(&Message::Text("hi".to_string()));
    assert_eq!(step.log, None);
}

#[test]
fn a_close_frame_stops_the_read_task() {
    let settings = WebSocketSettings::default();
    let session = open_session(&settings);
    let step = session.on_inbound_frame(&Message::Close(None));
    assert!(step.stop);
    assert!(step.reply.is_none());
    assert!(step.log.is_none());
}

#[test]
fn decode_error_drives_the_session_to_closing_then_closed() {
    // A malformed frame mid-stream: the read task exits with a decode
    // error, the paired write task is signalled and also exits, and the
    // session ends Closed.
    let settings = WebSocketSettings::default();
    let mut session = open_session(&settings);

    let err = session.on_read_exit(ReadEnd::DecodeError);
    assert_eq!(err, Some(SessionError::FrameDecodeError));
    assert_eq!(session.state, SessionState::Closing);
    assert!(!session.read_running);
    assert!(session.write_running);

    let err = session.on_write_exit(WriteEnd::Stopped);
    assert_eq!(err, None);
    assert_eq!(session.state, SessionState::Closed);
    assert!(!session.read_running && !session.write_running);
}

#[test]
fn closed_is_reached_only_when_both_tasks_exited() {
    let settings = WebSocketSettings::default();
    let mut session = open_session(&settings);

    session.on_read_exit(ReadEnd::StreamEnd);
    // One task still runs: the session must not be Closed yet.
    assert_eq!(session.state, SessionState::Closing);
    session.on_write_exit(WriteEnd::Stopped);
    assert_eq!(session.state, SessionState::Closed);
}

#[test]
fn send_failure_stops_the_write_task_and_signals_the_reader() {
    let settings = WebSocketSettings::default();
    let mut session = open_session(&settings);

    let err = session.on_write_exit(WriteEnd::SendFailure);
    assert_eq!(err, Some(SessionError::SendError));
    assert_eq!(session.state, SessionState::Closing);
    assert!(session.read_running);

    let err = session.on_read_exit(ReadEnd::Stopped);
    assert_eq!(err, None);
    assert_eq!(session.state, SessionState::Closed);
}

#[test]
fn both_channels_closing_ends_the_write_task_normally() {
    let settings = WebSocketSettings::default();
    let mut session = open_session(&settings);

    let step = session.on_write_event(&WriteEvent::Disconnected);
    assert!(step.exit);
    assert!(step.frame.is_none());
    let err = session.on_write_exit(WriteEnd::ChannelsClosed);
    assert_eq!(err, None);
    assert_eq!(session.state, SessionState::Closing);
}

#[test]
fn merge_hands_each_message_to_the_transport_whole() {
    let settings = WebSocketSettings::default();
    let mut session = open_session(&settings);

    let step = session.on_write_event(&WriteEvent::Broadcast(Message::Text("a".to_string())));
    assert!(!step.exit);
    match step.frame {
        Some(Message::Text(t)) => assert_eq!(t, "a"),
        other => panic!("the broadcast message must go out as one frame: {:?}", other),
    }

    let step = session.on_write_event(&WriteEvent::Reply(Message::Pong(vec![5])));
    assert!(!step.exit);
    match step.frame {
        Some(Message::Pong(payload)) => assert_eq!(payload, vec![5]),
        other => panic!("the reply must go out as one frame: {:?}", other),
    }

    let step = session.on_write_event(&WriteEvent::Lagged(3));
    assert!(step.frame.is_none());
    assert!(!step.exit);
}
