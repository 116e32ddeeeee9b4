//! Messages shared by the default keybindings, and the decision logic of the
//! terminal event source and of outbound logging. The blocking terminal loop
//! and the socket writes themselves run outside this library; they consult
//! the functions here for every decision.

use vstd::prelude::*;
use crate::keybindings::Key;
use crate::keybindings::Keybindings;
use crate::message::CloseFrame;
use crate::message::CloseFrameView;
use crate::message::Message;
use crate::message::MessageView;

verus! {

/// The close status code for a normal closure.
pub const CLOSE_CODE_NORMAL: u16 = 1000;

/// Abstract value of the keep-alive probe sent for the ping-trigger key:
/// a ping with an empty payload.
pub open spec fn spec_ping() -> MessageView {
    MessageView::Ping(Seq::empty())
}

/// Abstract value of the message sent for the close-trigger key: a normal
/// closure carrying the reason text `"connection close"`.
pub open spec fn spec_close() -> MessageView {
    MessageView::Close(
        Some(CloseFrameView { code: CLOSE_CODE_NORMAL, reason: "connection close"@ }),
    )
}

/// The keep-alive probe produced by the default ping-trigger binding.
pub fn ping() -> (m: Message)
    ensures
        m@ == spec_ping(),
{
    Message::Ping(Vec::new())
}

/// The close message produced by the default close-trigger binding.
pub fn close() -> (m: Message)
    ensures
        m@ == spec_close(),
{
    Message::Close(
        Some(CloseFrame { code: CLOSE_CODE_NORMAL, reason: "connection close".to_owned() }),
    )
}

/// How the default policy classifies a message for logging; the caller
/// holds the message itself and formats the line.
#[derive(Clone, Copy, Debug, PartialEq, Eq, Structural)]
pub enum LogClass {
    /// Logged with its text.
    Text,
    /// Logged as a keep-alive probe.
    Ping,
    /// Logged as the answer to a keep-alive probe.
    Pong,
}

/// The outbound logging policy: text, ping and pong frames are logged;
/// every other frame is silent.
pub open spec fn spec_outbound_log_class(m: MessageView) -> Option<LogClass> {
    match m {
        MessageView::Text(_) => Some(LogClass::Text),
        MessageView::Ping(_) => Some(LogClass::Ping),
        MessageView::Pong(_) => Some(LogClass::Pong),
        _ => None,
    }
}

/// The inbound logging policy: when incoming logging is enabled, only text
/// and pong frames are logged; every other frame is silent.
pub open spec fn spec_incoming_log_class(m: MessageView, log_incoming: bool) -> Option<LogClass> {
    if log_incoming {
        match m {
            MessageView::Text(_) => Some(LogClass::Text),
            MessageView::Pong(_) => Some(LogClass::Pong),
            _ => None,
        }
    } else {
        None
    }
}

/// Classifies an outbound frame for logging after a successful send.
pub fn outbound_log_class(msg: &Message) -> (c: Option<LogClass>)
    ensures
        c == spec_outbound_log_class(msg@),
{
    match msg {
        Message::Text(_) => Some(LogClass::Text),
        Message::Ping(_) => Some(LogClass::Ping),
        Message::Pong(_) => Some(LogClass::Pong),
        _ => None,
    }
}

/// Classifies an inbound frame for logging under the session's flag.
pub fn incoming_log_class(msg: &Message, log_incoming: bool) -> (c: Option<LogClass>)
    ensures
        c == spec_incoming_log_class(msg@, log_incoming),
{
    if log_incoming {
        match msg {
            Message::Text(_) => Some(LogClass::Text),
            Message::Pong(_) => Some(LogClass::Pong),
            _ => None,
        }
    } else {
        None
    }
}

/// What the terminal event source does for one key press.
pub struct KeyStep {
    /// Stop the capture loop.
    pub quit: bool,
    /// Publish this message on the broadcast channel.
    pub publish: Option<Message>,
}

/// The key that stops the capture loop.
pub open spec fn spec_is_quit_key(key: Key) -> bool {
    key == Key::Ctrl('c')
}

/// Decides what one key press does: the quit key stops the capture loop and
/// publishes nothing; otherwise, when at least one subscriber is listening
/// and the key is bound, the bound message is published fire-and-forget;
/// every other press publishes nothing.
pub fn on_key_press(key: Key, keybindings: Option<&Keybindings>, has_receivers: bool) -> (step:
    KeyStep)
    requires
        keybindings matches Some(kb) ==> kb.wf(),
    ensures
        step.quit <==> spec_is_quit_key(key),
        step.quit ==> step.publish is None,
        !step.quit ==> match keybindings {
            Some(kb) => {
                &&& (step.publish is Some <==> has_receivers && kb.contains_key(key))
                &&& (step.publish matches Some(m) ==> m@ == kb.spec_at(key))
            },
            None => step.publish is None,
        },
{
    if key == Key::Ctrl('c') {
        return KeyStep { quit: true, publish: None };
    }
    if !has_receivers {
        return KeyStep { quit: false, publish: None };
    }
    match keybindings {
        Some(kb) => match kb.at(key) {
            Some(m) => KeyStep { quit: false, publish: Some(m.clone()) },
            None => KeyStep { quit: false, publish: None },
        },
        None => KeyStep { quit: false, publish: None },
    }
}

} // verus!
