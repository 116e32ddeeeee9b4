//! The protocol message type and its abstract value.

use vstd::prelude::*;

verus! {

/// Abstract value of a [`CloseFrame`]: the status code and the reason text
/// as a sequence of characters.
pub ghost struct CloseFrameView {
    pub code: u16,
    pub reason: Seq<char>,
}

/// Abstract value of a [`Message`]: the same variants with every payload
/// taken as a mathematical sequence.
pub ghost enum MessageView {
    Text(Seq<char>),
    Binary(Seq<u8>),
    Ping(Seq<u8>),
    Pong(Seq<u8>),
    Close(Option<CloseFrameView>),
}

/// The status code and reason text carried by a close message.
#[derive(Debug, PartialEq)]
pub struct CloseFrame {
    pub code: u16,
    pub reason: String,
}

/// One protocol message. A message is immutable once constructed and is
/// cloned for fan-out; a value of this type always stands for one whole
/// frame, never a fragment of one.
#[derive(Debug, PartialEq)]
pub enum Message {
    /// A text message.
    Text(String),
    /// A binary message.
    Binary(Vec<u8>),
    /// A keep-alive probe.
    Ping(Vec<u8>),
    /// The answer to a keep-alive probe.
    Pong(Vec<u8>),
    /// A close message with an optional close frame.
    Close(Option<CloseFrame>),
}

impl View for CloseFrame {
    type V = CloseFrameView;

    open spec fn view(&self) -> CloseFrameView {
        CloseFrameView { code: self.code, reason: self.reason@ }
    }
}

impl View for Message {
    type V = MessageView;

    open spec fn view(&self) -> MessageView {
        match self {
            Message::Text(s) => MessageView::Text(s@),
            Message::Binary(b) => MessageView::Binary(b@),
            Message::Ping(b) => MessageView::Ping(b@),
            Message::Pong(b) => MessageView::Pong(b@),
            Message::Close(f) => MessageView::Close(
                match f {
                    Some(frame) => Some(frame@),
                    None => None,
                },
            ),
        }
    }
}

/// Copies a byte payload; the copy has the same abstract value.
pub(crate) fn clone_bytes(b: &Vec<u8>) -> (res: Vec<u8>)
    ensures
        res@ == b@,
{
    let res = b.clone();
    proof {
        assert(res@ =~= b@);
    }
    res
}

impl Clone for CloseFrame {
    /// A cloned close frame has the same abstract value.
    fn clone(&self) -> (res: Self)
        ensures
            res@ == self@,
    {
        CloseFrame { code: self.code, reason: self.reason.clone() }
    }
}

impl Clone for Message {
    /// A cloned message has the same abstract value.
    fn clone(&self) -> (res: Self)
        ensures
            res@ == self@,
    {
        match self {
            Message::Text(s) => Message::Text(s.clone()),
            Message::Binary(b) => Message::Binary(clone_bytes(b)),
            Message::Ping(b) => Message::Ping(clone_bytes(b)),
            Message::Pong(b) => Message::Pong(clone_bytes(b)),
            Message::Close(f) => Message::Close(
                match f {
                    Some(frame) => Some(frame.clone()),
                    None => None,
                },
            ),
        }
    }
}

} // verus!
