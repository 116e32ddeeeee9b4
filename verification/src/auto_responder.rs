//! The auto-responder: the pure policy that decides whether an inbound
//! message earns an automatic protocol reply. It performs no I/O; the
//! session's read task consults it for every inbound frame.

use vstd::prelude::*;
use crate::message::clone_bytes;
use crate::message::Message;
use crate::message::MessageView;

verus! {

/// The reply owed to an inbound message: a pong echoing the probe's payload
/// when the message is a ping and the `auto_pong` flag is set, and nothing
/// otherwise.
pub open spec fn spec_auto_respond(msg: MessageView, auto_pong: bool) -> Option<MessageView> {
    if auto_pong && msg is Ping {
        Some(MessageView::Pong(msg->Ping_0))
    } else {
        None
    }
}

/// Decides the automatic reply to an inbound message.
pub fn auto_respond(msg: &Message, auto_pong: bool) -> (reply: Option<Message>)
    ensures
        match reply {
            Some(r) => spec_auto_respond(msg@, auto_pong) == Some(r@),
            None => spec_auto_respond(msg@, auto_pong) is None,
        },
{
    if auto_pong {
        match msg {
            Message::Ping(payload) => Some(Message::Pong(clone_bytes(payload))),
            _ => None,
        }
    } else {
        None
    }
}

/// Law: exactly the pings are answered. With `auto_pong` set, an inbound
/// ping earns one pong carrying the probe's payload; every other message,
/// and every message while the flag is clear, earns no reply.
pub proof fn lemma_auto_respond_exactly_pings(msg: MessageView, auto_pong: bool)
    ensures
        (auto_pong && msg is Ping) ==> spec_auto_respond(msg, auto_pong) == Some(
            MessageView::Pong(msg->Ping_0),
        ),
        !(auto_pong && msg is Ping) ==> spec_auto_respond(msg, auto_pong) is None,
{
}

} // verus!
