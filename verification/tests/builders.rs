use wasabi::client::Client;
use wasabi::client::ClientError;
use wasabi::keybindings::Key;
use wasabi::message::Message;
use wasabi::server::Error;
use wasabi::server::Server;
use wasabi::ws_settings::WebSocketSettings;
use wasabi::ws_settings::WebSocketSettingsError;

#[test]
fn default_settings_have_everything_off() {
    let settings = WebSocketSettings::default();
    assert!(settings.keybindings.is_none());
    assert!(settings.on_connect_message.is_none());
    assert!(!settings.auto_pong);
    assert!(!settings.log_incoming_messages);
}

#[test]
fn builder_assembles_every_option() {
    let settings = WebSocketSettings::builder()
        .on_connect_message(Message::Text("welcome".to_string()))
        .add_keybinding(Key::Char('t'), Message::Text("test message".to_string()))
        .auto_pong()
        .log_incoming_messages()
        .build()
        .expect("settings should build");

    match &settings.on_connect_message {
        Some(Message::Text(t)) => assert_eq!(t, "welcome"),
        other => panic!("greeting lost: {:?}", other),
    }
    assert!(settings.auto_pong);
    assert!(settings.log_incoming_messages);

    let table = settings.keybindings.expect("a table was assembled");
    match table.at(Key::Char('t')) {
        Some(Message::Text(t)) => assert_eq!(t, "test message"),
        other => panic!("binding lost: {:?}", other),
    }
    // The default reserved bindings are still underneath.
    assert!(table.at(Key::Char('q')).is_some());
    assert!(table.at(Key::Char('p')).is_some());
}

#[test]
fn reserved_key_poisons_the_settings_build() {
    let result = WebSocketSettings::builder()
        .add_keybinding(Key::Char('q'), Message::Text("hijack".to_string()))
        .build();
    match result {
        Err(WebSocketSettingsError::BuilderError(text)) => {
            assert_eq!(text, "use of reserved key");
        }
        other => panic!("expected a builder error: {:?}", other.map(|_| ())),
    }
}

#[test]
fn duplicate_key_poisons_the_settings_build() {
    let result = WebSocketSettings::builder()
        .add_keybinding(Key::Char('t'), Message::Text("first".to_string()))
        .add_keybinding(Key::Char('t'), Message::Text("second".to_string()))
        .build();
    match result {
        Err(WebSocketSettingsError::BuilderError(text)) => {
            assert_eq!(text, "keybinding already exists");
        }
        other => panic!("expected a builder error: {:?}", other.map(|_| ())),
    }
}

#[test]
fn the_first_builder_error_sticks() {
    let result = WebSocketSettings::builder()
        .add_keybinding(Key::Char('p'), Message::Text("hijack".to_string()))
        .on_connect_message(Message::Text("welcome".to_string()))
        .log_incoming_messages()
        .build();
    match result {
        Err(WebSocketSettingsError::BuilderError(text)) => {
            assert_eq!(text, "use of reserved key");
        }
        other => panic!("expected the first error: {:?}", other.map(|_| ())),
    }
}

#[test]
fn client_builds_with_an_address() {
    let client = Client::builder()
        .address("ws://127.0.0.1:8080")
        .settings(WebSocketSettings::default())
        .build()
        .expect("client should build");
    assert_eq!(client.address, "ws://127.0.0.1:8080");
}

#[test]
fn client_refuses_an_address_that_is_not_a_ws_uri() {
    let result = Client::builder()
        .address("http://127.0.0.1:8080")
        .settings(WebSocketSettings::default())
        .build();
    match result {
        Err(ClientError::BuilderError(text)) => assert_eq!(text, "not a ws address"),
        Ok(_) => panic!("a non-ws scheme must be refused"),
    }

    let result = Client::builder().address("definitely not a uri").build();
    match result {
        Err(ClientError::BuilderError(text)) => assert_eq!(text, "not a ws address"),
        Ok(_) => panic!("an unparsable address must be refused"),
    }
}

#[test]
fn client_without_an_address_is_refused() {
    let result = Client::builder().settings(WebSocketSettings::default()).build();
    match result {
        Err(ClientError::BuilderError(text)) => assert_eq!(text, "address not specified"),
        Ok(_) => panic!("a client without an address must be refused"),
    }
}

#[test]
fn server_builds_with_an_address() {
    let server = Server::builder()
        .address("127.0.0.1:8080")
        .settings(WebSocketSettings::default())
        .build()
        .expect("server should build");
    assert_eq!(server.address, "127.0.0.1:8080");
}

#[test]
fn server_without_an_address_is_refused() {
    let result = Server::builder().settings(WebSocketSettings::default()).build();
    match result {
        Err(e) => assert_eq!(e, Error::BuilderError),
        Ok(_) => panic!("a server without an address must be refused"),
    }
}
