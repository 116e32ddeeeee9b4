//! Ready-made messages with labelled payloads, for callers that want a
//! probe or reply carrying a short text tag rather than an empty payload.

use vstd::prelude::*;
use crate::common::CLOSE_CODE_NORMAL;
use crate::message::CloseFrame;
use crate::message::CloseFrameView;
use crate::message::Message;
use crate::message::MessageView;

verus! {

/// Abstract payload of the labelled ping: the ASCII bytes of `"ping"`.
pub open spec fn spec_ping_payload() -> Seq<u8> {
    seq![112u8, 105u8, 110u8, 103u8]
}

/// Abstract payload of the labelled pong: the ASCII bytes of `"pong"`.
pub open spec fn spec_pong_payload() -> Seq<u8> {
    seq![112u8, 111u8, 110u8, 103u8]
}

/// A keep-alive probe whose payload spells `"ping"`.
pub fn ping() -> (m: Message)
    ensures
        m@ == MessageView::Ping(spec_ping_payload()),
{
    let payload: Vec<u8> = vec![112u8, 105u8, 110u8, 103u8];
    proof {
        assert(payload@ =~= spec_ping_payload());
    }
    Message::Ping(payload)
}

/// A probe answer whose payload spells `"pong"`.
pub fn pong() -> (m: Message)
    ensures
        m@ == MessageView::Pong(spec_pong_payload()),
{
    let payload: Vec<u8> = vec![112u8, 111u8, 110u8, 103u8];
    proof {
        assert(payload@ =~= spec_pong_payload());
    }
    Message::Pong(payload)
}

/// A close message announcing a normal closure.
pub fn close() -> (m: Message)
    ensures
        m@ == MessageView::Close(
            Some(CloseFrameView { code: CLOSE_CODE_NORMAL, reason: "connection close"@ }),
        ),
{
    Message::Close(
        Some(CloseFrame { code: CLOSE_CODE_NORMAL, reason: "connection close".to_owned() }),
    )
}

} // verus!
