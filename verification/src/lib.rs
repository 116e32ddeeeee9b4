//! A terminal-driven duplex messaging core.
//!
//! The crate verifies the logic of a keystroke-driven message client/server
//! pair: the keybinding table, the auto-responder policy, the per-connection
//! session state machine with its single-writer outbound discipline, the
//! broadcast fan-out semantics, and the settings/builder surface. Transport
//! and terminal I/O are performed by an unverified shell around this library.

pub mod auto_responder;
pub mod broadcast;
pub mod client;
pub mod common;
pub mod common_messages;
pub mod keybindings;
pub mod message;
pub mod server;
pub mod session;
pub mod ws_settings;

pub use crate::client::Client;
pub use crate::client::ClientBuilder;
pub use crate::client::ClientError;
pub use crate::client::ClientParts;
pub use crate::keybindings::Key;
pub use crate::keybindings::Keybindings;
pub use crate::message::CloseFrame;
pub use crate::message::Message;
pub use crate::server::Error;
pub use crate::server::Server;
pub use crate::server::ServerBuilder;
pub use crate::server::ServerParts;
pub use crate::session::Session;
pub use crate::ws_settings::WebSocketSettings;
pub use crate::ws_settings::WebSocketSettingsBuilder;
pub use crate::ws_settings::WebSocketSettingsError;
pub use crate::ws_settings::WebSocketSettingsParts;
