//! The per-connection session: the state machine that owns one connection's
//! read/write task pair, merges the broadcast and private reply sources into
//! a single outbound stream, and tears both tasks down together.
//!
//! The functions here take every decision; the unverified shell around the
//! library performs the awaited reads, sends and channel operations and
//! reports each outcome back as an event. The ghost `outbound` log records
//! the frames handed to the transport, in order; every hand-off appends
//! exactly one whole message, so the wire never carries a fragment of a
//! frame, and only the write-side transitions ever extend the log — the
//! single-writer discipline over the shared transport.

use vstd::prelude::*;
use crate::auto_responder;
use crate::common;
use crate::common::LogClass;
use crate::message::Message;
use crate::message::MessageView;
use crate::ws_settings::WebSocketSettings;

verus! {

/// The lifecycle of a session.
#[derive(Clone, Copy, Debug, PartialEq, Eq, Structural)]
pub enum SessionState {
    /// The transport upgrade is still in flight; no task runs yet.
    Handshaking,
    /// Both tasks run.
    Open,
    /// One side has stopped and the other has been signalled to stop.
    Closing,
    /// Both tasks have exited.
    Closed,
}

/// The error kinds a session can report.
#[derive(Clone, Copy, Debug, PartialEq, Eq, Structural)]
pub enum SessionError {
    /// The transport was unreachable.
    ConnectError,
    /// The protocol upgrade failed.
    HandshakeError,
    /// A malformed inbound frame.
    FrameDecodeError,
    /// An outbound write failed.
    SendError,
    /// A producer side of an internal channel has gone away.
    ChannelClosedError,
}

/// Why the read task is exiting.
#[derive(Clone, Copy, Debug, PartialEq, Eq, Structural)]
pub enum ReadEnd {
    /// The peer sent a close frame.
    CloseFrame,
    /// The inbound stream ended.
    StreamEnd,
    /// An inbound frame failed to decode.
    DecodeError,
    /// The partner task stopped and signalled this side to stop.
    Stopped,
}

/// Why the write task is exiting.
#[derive(Clone, Copy, Debug, PartialEq, Eq, Structural)]
pub enum WriteEnd {
    /// Both merged sources are permanently closed.
    ChannelsClosed,
    /// An outbound send failed.
    SendFailure,
    /// The partner task stopped and signalled this side to stop.
    Stopped,
}

/// One arrival at the write task's fair two-source merge. Simultaneous
/// readiness of the two channels has an unspecified tie-break; whichever
/// source is drawn, its message arrives here.
pub enum WriteEvent {
    /// A message from the shared broadcast channel.
    Broadcast(Message),
    /// A reply from the session's private reply channel.
    Reply(Message),
    /// The broadcast channel dropped this subscriber's oldest entries;
    /// the count is how many were missed.
    Lagged(u64),
    /// Both sources are permanently closed.
    Disconnected,
}

/// What the read task does with one inbound frame.
pub struct ReadStep {
    /// Push this reply onto the private reply channel.
    pub reply: Option<Message>,
    /// Log the frame under this class.
    pub log: Option<LogClass>,
    /// Exit the read task (the frame was a close frame).
    pub stop: bool,
}

/// What the write task does with one merge arrival.
pub struct WriteStep {
    /// Hand this whole frame to the transport.
    pub frame: Option<Message>,
    /// Exit the write task.
    pub exit: bool,
}

/// One connection's session: its state, its task pair, its snapshot of the
/// per-session settings, and the ghost log of frames handed to the
/// transport.
pub struct Session {
    /// Where the session stands in its lifecycle.
    pub state: SessionState,
    /// The read task has been spawned and has not exited.
    pub read_running: bool,
    /// The write task has been spawned and has not exited.
    pub write_running: bool,
    /// Snapshot of the `auto_pong` flag.
    pub auto_pong: bool,
    /// Snapshot of the `log_incoming_messages` flag.
    pub log_incoming_messages: bool,
    /// Snapshot of the connect-time greeting.
    pub on_connect_message: Option<Message>,
    /// The frames handed to the transport, in order, each one whole.
    pub outbound: Ghost<Seq<MessageView>>,
}

impl Session {
    /// The greeting's abstract value, when one is configured.
    pub open spec fn greeting(self) -> Option<MessageView> {
        match self.on_connect_message {
            Some(m) => Some(m@),
            None => None,
        }
    }

    /// The session invariant: the task pair matches the state (both tasks
    /// exist exactly from `Open`, and `Closed` is reached exactly when both
    /// have exited), nothing is sent before the handshake completes, and
    /// the greeting, when configured, is the first frame ever sent.
    pub open spec fn wf(self) -> bool {
        &&& match self.state {
            SessionState::Handshaking => !self.read_running && !self.write_running
                && self.outbound@.len() == 0,
            SessionState::Open => self.read_running && self.write_running,
            SessionState::Closing => self.read_running || self.write_running,
            SessionState::Closed => !self.read_running && !self.write_running,
        }
        &&& (self.greeting() matches Some(g) ==> (self.outbound@.len() > 0 ==> self.outbound@[0]
            == g))
        &&& ((self.greeting() is Some && (self.state is Open || self.state is Closing))
            ==> self.outbound@.len() > 0)
    }

    /// The settings snapshot carried by `other`, unchanged.
    pub open spec fn same_config(self, other: Session) -> bool {
        &&& self.auto_pong == other.auto_pong
        &&& self.log_incoming_messages == other.log_incoming_messages
        &&& self.greeting() == other.greeting()
    }

    /// A fresh session under a snapshot of `settings`, still handshaking,
    /// with no task and nothing sent.
    pub fn new(settings: &WebSocketSettings) -> (s: Session)
        ensures
            s.wf(),
            s.state is Handshaking,
            !s.read_running && !s.write_running,
            s.auto_pong == settings.auto_pong,
            s.log_incoming_messages == settings.log_incoming_messages,
            s.greeting() == settings@.on_connect_message,
            s.outbound@ =~= Seq::<MessageView>::empty(),
    {
        let on_connect_message = match &settings.on_connect_message {
            Some(m) => Some(m.clone()),
            None => None,
        };
        Session {
            state: SessionState::Handshaking,
            read_running: false,
            write_running: false,
            auto_pong: settings.auto_pong,
            log_incoming_messages: settings.log_incoming_messages,
            on_connect_message,
            outbound: Ghost(Seq::empty()),
        }
    }

    /// The transport handshake completed: the session opens, its task pair
    /// is considered spawned, and the greeting, when configured, is handed
    /// to the transport now — strictly before either task processes any
    /// other source.
    pub fn on_handshake_complete(&mut self) -> (greeting: Option<Message>)
        requires
            old(self).wf(),
            old(self).state is Handshaking,
        ensures
            final(self).wf(),
            final(self).state is Open,
            final(self).read_running && final(self).write_running,
            final(self).same_config(*old(self)),
            match greeting {
                Some(m) => old(self).greeting() == Some(m@) && final(self).outbound@ =~= seq![m@],
                None => old(self).greeting() is None && final(self).outbound@ =~= Seq::<
                    MessageView,
                >::empty(),
            },
    {
        self.state = SessionState::Open;
        self.read_running = true;
        self.write_running = true;
        match &self.on_connect_message {
            Some(m) => {
                let frame = m.clone();
                self.outbound = Ghost(self.outbound@.push(frame@));
                Some(frame)
            },
            None => None,
        }
    }

    /// The transport handshake failed: the session is closed before any
    /// task ran and nothing was ever sent.
    pub fn on_handshake_failure(&mut self) -> (err: SessionError)
        requires
            old(self).wf(),
            old(self).state is Handshaking,
        ensures
            final(self).wf(),
            final(self).state is Closed,
            final(self).same_config(*old(self)),
            final(self).outbound@ == old(self).outbound@,
            err == SessionError::HandshakeError,
    {
        self.state = SessionState::Closed;
        SessionError::HandshakeError
    }

    /// The read task's decision for one decoded inbound frame: a close
    /// frame stops the task; any other frame is classified for logging and
    /// handed to the auto-responder, whose reply (exactly one pong per
    /// ping under `auto_pong`, nothing otherwise) goes to the private reply
    /// channel. The read side never touches the outbound stream.
    pub fn on_inbound_frame(&self, msg: &Message) -> (step: ReadStep)
        requires
            self.wf(),
            self.state is Open,
        ensures
            step.stop <==> msg@ is Close,
            msg@ is Close ==> step.reply is None && step.log is None,
            !(msg@ is Close) ==> {
                &&& (match step.reply {
                    Some(r) => auto_responder::spec_auto_respond(msg@, self.auto_pong) == Some(r@),
                    None => auto_responder::spec_auto_respond(msg@, self.auto_pong) is None,
                })
                &&& step.log == common::spec_incoming_log_class(
                    msg@,
                    self.log_incoming_messages,
                )
            },
    {
        if let Message::Close(_) = msg {
            return ReadStep { reply: None, log: None, stop: true };
        }
        let reply = auto_responder::auto_respond(msg, self.auto_pong);
        let log = common::incoming_log_class(msg, self.log_incoming_messages);
        ReadStep { reply, log, stop: false }
    }

    /// The read task exits. Its partner is signalled to stop: the session
    /// is `Closing` while the write task still runs and `Closed` once both
    /// are gone. Only a decode failure is reported as an error; a close
    /// frame or a plain end of stream is a normal closure.
    pub fn on_read_exit(&mut self, end: ReadEnd) -> (err: Option<SessionError>)
        requires
            old(self).wf(),
            old(self).read_running,
            old(self).state is Open || old(self).state is Closing,
        ensures
            final(self).wf(),
            final(self).same_config(*old(self)),
            final(self).outbound@ == old(self).outbound@,
            !final(self).read_running,
            final(self).write_running == old(self).write_running,
            final(self).state == if old(self).write_running {
                SessionState::Closing
            } else {
                SessionState::Closed
            },
            err == if end is DecodeError {
                Some(SessionError::FrameDecodeError)
            } else {
                None::<SessionError>
            },
    {
        self.read_running = false;
        if self.write_running {
            self.state = SessionState::Closing;
        } else {
            self.state = SessionState::Closed;
        }
        if let ReadEnd::DecodeError = end {
            Some(SessionError::FrameDecodeError)
        } else {
            None
        }
    }

    /// The write task's decision for one merge arrival while the session is
    /// open: a message from either source is handed to the transport as
    /// exactly one whole frame, appended to the outbound stream; a lag
    /// signal sends nothing; both sources gone means the task exits. No
    /// other transition ever extends the outbound stream.
    pub fn on_write_event(&mut self, event: &WriteEvent) -> (step: WriteStep)
        requires
            old(self).wf(),
            old(self).state is Open,
        ensures
            final(self).wf(),
            final(self).state == old(self).state,
            final(self).read_running == old(self).read_running,
            final(self).write_running == old(self).write_running,
            final(self).same_config(*old(self)),
            match event {
                WriteEvent::Broadcast(m) => {
                    &&& step.frame matches Some(f) && f@ == m@
                    &&& !step.exit
                    &&& final(self).outbound@ =~= old(self).outbound@.push(m@)
                },
                WriteEvent::Reply(m) => {
                    &&& step.frame matches Some(f) && f@ == m@
                    &&& !step.exit
                    &&& final(self).outbound@ =~= old(self).outbound@.push(m@)
                },
                WriteEvent::Lagged(_) => {
                    &&& step.frame is None
                    &&& !step.exit
                    &&& final(self).outbound@ == old(self).outbound@
                },
                WriteEvent::Disconnected => {
                    &&& step.frame is None
                    &&& step.exit
                    &&& final(self).outbound@ == old(self).outbound@
                },
            },
    {
        match event {
            WriteEvent::Broadcast(m) => {
                let frame = m.clone();
                self.outbound = Ghost(self.outbound@.push(frame@));
                WriteStep { frame: Some(frame), exit: false }
            },
            WriteEvent::Reply(m) => {
                let frame = m.clone();
                self.outbound = Ghost(self.outbound@.push(frame@));
                WriteStep { frame: Some(frame), exit: false }
            },
            WriteEvent::Lagged(_) => WriteStep { frame: None, exit: false },
            WriteEvent::Disconnected => WriteStep { frame: None, exit: true },
        }
    }

    /// The write task exits. Its partner is signalled to stop: the session
    /// is `Closing` while the read task still runs and `Closed` once both
    /// are gone. Only a send failure is reported as an error; both sources
    /// closing is a normal end.
    pub fn on_write_exit(&mut self, end: WriteEnd) -> (err: Option<SessionError>)
        requires
            old(self).wf(),
            old(self).write_running,
            old(self).state is Open || old(self).state is Closing,
        ensures
            final(self).wf(),
            final(self).same_config(*old(self)),
            final(self).outbound@ == old(self).outbound@,
            !final(self).write_running,
            final(self).read_running == old(self).read_running,
            final(self).state == if old(self).read_running {
                SessionState::Closing
            } else {
                SessionState::Closed
            },
            err == if end is SendFailure {
                Some(SessionError::SendError)
            } else {
                None::<SessionError>
            },
    {
        self.write_running = false;
        if self.read_running {
            self.state = SessionState::Closing;
        } else {
            self.state = SessionState::Closed;
        }
        if let WriteEnd::SendFailure = end {
            Some(SessionError::SendError)
        } else {
            None
        }
    }
}

/// Law: once its tasks exist, a session is `Closed` exactly when both its
/// read and write tasks have exited — it is never observed `Closed` while
/// either task still runs.
pub proof fn lemma_closed_iff_tasks_exited(s: Session)
    requires
        s.wf(),
        !(s.state is Handshaking),
    ensures
        s.state is Closed <==> (!s.read_running && !s.write_running),
{
}

/// Law: when a greeting is configured, it is the first frame ever handed to
/// the transport — every outbound stream that carries anything carries the
/// greeting first.
pub proof fn lemma_greeting_first(s: Session, g: MessageView)
    requires
        s.wf(),
        s.greeting() == Some(g),
        s.outbound@.len() > 0,
    ensures
        s.outbound@[0] == g,
{
}

/// Law: an open session with a greeting configured has already sent it —
/// no later frame can precede it.
pub proof fn lemma_open_greeting_sent(s: Session)
    requires
        s.wf(),
        s.greeting() is Some,
        s.state is Open || s.state is Closing,
    ensures
        s.outbound@.len() > 0,
        Some(s.outbound@[0]) == s.greeting(),
{
}

} // verus!
