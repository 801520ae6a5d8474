//! The per-connection session state machine. One instance is created for each
//! upgraded connection, owned exclusively by the task driving that connection,
//! and consumes inbound frames in arrival order, emitting at most one outbound
//! frame per input.

use vstd::prelude::*;

verus! {

/// The connection lifecycle: `Open` on creation, `Closing` after a peer
/// `Close` frame has been echoed, `Closed` once the transport has shut down.
#[derive(Clone, Copy, Debug, PartialEq, Eq, Structural)]
pub enum ConnState {
    Open,
    Closing,
    Closed,
}

/// The reason carried by a `Close` frame: a status code and an optional
/// human-readable description.
#[derive(Debug, PartialEq)]
pub struct CloseReason {
    pub code: u16,
    pub description: Option<String>,
}

/// One discrete message unit on the channel. `Other` is a well-formed frame
/// of an unhandled kind; `Malformed` is an inbound unit the codec refused,
/// which the machine ignores rather than treats as fatal, so one connection's
/// oddities cannot affect the session.
#[derive(Debug, PartialEq)]
pub enum Frame {
    Ping(Vec<u8>),
    Pong(Vec<u8>),
    Text(String),
    Close(Option<CloseReason>),
    Other,
    Malformed,
}

/// The mathematical model of a close reason.
pub struct ReasonModel {
    pub code: u16,
    pub description: Option<Seq<char>>,
}

/// The mathematical model of a frame: payloads as sequences.
pub enum FrameModel {
    Ping(Seq<u8>),
    Pong(Seq<u8>),
    Text(Seq<char>),
    Close(Option<ReasonModel>),
    Other,
    Malformed,
}

impl View for CloseReason {
    type V = ReasonModel;

    open spec fn view(&self) -> ReasonModel {
        ReasonModel {
            code: self.code,
            description: match self.description {
                Some(d) => Some(d@),
                None => None,
            },
        }
    }
}

impl View for Frame {
    type V = FrameModel;

    open spec fn view(&self) -> FrameModel {
        match self {
            Frame::Ping(p) => FrameModel::Ping(p@),
            Frame::Pong(p) => FrameModel::Pong(p@),
            Frame::Text(t) => FrameModel::Text(t@),
            Frame::Close(r) => FrameModel::Close(
                match r {
                    Some(reason) => Some(reason@),
                    None => None,
                },
            ),
            Frame::Other => FrameModel::Other,
            Frame::Malformed => FrameModel::Malformed,
        }
    }
}

/// The view of an optional emitted frame.
pub open spec fn opt_frame_view(o: Option<Frame>) -> Option<FrameModel> {
    match o {
        Some(f) => Some(f@),
        None => None,
    }
}

/// The state reached after consuming one inbound frame. A `Close` frame in
/// `Open` starts the shutdown handshake; once the machine has left `Open` no
/// frame moves it again (the transport signals finish the shutdown).
pub open spec fn next_state(s: ConnState, f: FrameModel) -> ConnState {
    match s {
        ConnState::Open => match f {
            FrameModel::Close(_) => ConnState::Closing,
            _ => ConnState::Open,
        },
        ConnState::Closing => ConnState::Closing,
        ConnState::Closed => ConnState::Closed,
    }
}

/// The frame emitted in response to one inbound frame: a `Pong` echoing a
/// `Ping`'s payload, the text "pong" for the exact text "ping", an echoed
/// `Close`. Everything else — other text, unsolicited pongs, unhandled kinds,
/// malformed units — is silently ignored, and nothing is ever emitted outside
/// the `Open` state.
pub open spec fn emitted(s: ConnState, f: FrameModel) -> Option<FrameModel> {
    match s {
        ConnState::Open => match f {
            FrameModel::Ping(p) => Some(FrameModel::Pong(p)),
            FrameModel::Text(t) => if t == "ping"@ {
                Some(FrameModel::Text("pong"@))
            } else {
                None
            },
            FrameModel::Close(r) => Some(FrameModel::Close(r)),
            _ => None,
        },
        _ => None,
    }
}

/// A finite-state object driving one bidirectional channel. It starts `Open`,
/// and every transition is a response to one inbound frame or one transport
/// signal.
pub struct SessionMachine {
    state: ConnState,
}

impl SessionMachine {
    /// The current lifecycle state, as contracts speak of it.
    pub closed spec fn state_spec(&self) -> ConnState {
        self.state
    }

    /// A fresh machine for a newly upgraded connection.
    pub fn new() -> (m: SessionMachine)
        ensures
            m.state_spec() == ConnState::Open,
    {
        SessionMachine { state: ConnState::Open }
    }

    /// The current lifecycle state.
    pub fn state(&self) -> (s: ConnState)
        ensures
            s == self.state_spec(),
    {
        self.state
    }

    /// Consume one inbound frame, returning the frame to emit, if any. The
    /// transition and the emission follow `next_state` and `emitted` exactly.
    pub fn on_frame(&mut self, f: Frame) -> (out: Option<Frame>)
        ensures
            final(self).state_spec() == next_state(old(self).state_spec(), f@),
            opt_frame_view(out) == emitted(old(self).state_spec(), f@),
    {
        match self.state {
            ConnState::Open => match f {
                Frame::Ping(p) => Some(Frame::Pong(p)),
                Frame::Text(t) => {
                    if crate::strutil::str_eq(t.as_str(), "ping") {
                        Some(Frame::Text(String::from_str("pong")))
                    } else {
                        None
                    }
                },
                Frame::Close(r) => {
                    self.state = ConnState::Closing;
                    Some(Frame::Close(r))
                },
                _ => None,
            },
            _ => None,
        }
    }

    /// The transport acknowledged the shutdown: a `Closing` machine becomes
    /// `Closed`; any other state is unchanged.
    pub fn on_transport_ack(&mut self)
        ensures
            final(self).state_spec() == (if old(self).state_spec() == ConnState::Closing {
                ConnState::Closed
            } else {
                old(self).state_spec()
            }),
    {
        if self.state == ConnState::Closing {
            self.state = ConnState::Closed;
        }
    }

    /// The transport failed: the machine becomes `Closed` at once, with no
    /// echo attempted.
    pub fn on_transport_error(&mut self)
        ensures
            final(self).state_spec() == ConnState::Closed,
    {
        self.state = ConnState::Closed;
    }
}

/// A malformed inbound frame is ignored, never fatal: in every state it is
/// consumed with no emission and no transition, so the session survives it.
/// Only a genuine transport failure ends the session, through
/// `on_transport_error`, with no echo attempted.
pub proof fn lemma_malformed_frame_ignored(s: ConnState)
    ensures
        next_state(s, FrameModel::Malformed) == s,
        emitted(s, FrameModel::Malformed) is None,
{
}

/// A `Ping` with payload `p` received in `Open` yields exactly one `Pong`
/// carrying the same payload `p`, and the state stays `Open`.
pub proof fn lemma_ping_yields_pong(p: Seq<u8>)
    ensures
        emitted(ConnState::Open, FrameModel::Ping(p)) == Some(FrameModel::Pong(p)),
        next_state(ConnState::Open, FrameModel::Ping(p)) == ConnState::Open,
{
}

/// The exact text "ping" received in `Open` yields exactly one text frame
/// "pong"; any other text yields no frame. Either way the state stays `Open`.
pub proof fn lemma_text_ping_pong(t: Seq<char>)
    ensures
        t == "ping"@ ==> emitted(ConnState::Open, FrameModel::Text(t)) == Some(
            FrameModel::Text("pong"@),
        ),
        t != "ping"@ ==> emitted(ConnState::Open, FrameModel::Text(t)) is None,
        next_state(ConnState::Open, FrameModel::Text(t)) == ConnState::Open,
{
}

/// A `Close` frame received in `Open` is echoed with its reason unchanged and
/// moves the machine to `Closing`; the transport acknowledgement then closes
/// it. After that, no frame is processed or answered: from `Closing` or
/// `Closed`, every input leaves the state where it is and emits nothing.
pub proof fn lemma_close_then_silence(r: Option<ReasonModel>, f: FrameModel)
    ensures
        emitted(ConnState::Open, FrameModel::Close(r)) == Some(FrameModel::Close(r)),
        next_state(ConnState::Open, FrameModel::Close(r)) == ConnState::Closing,
        next_state(ConnState::Closing, f) == ConnState::Closing,
        emitted(ConnState::Closing, f) is None,
        next_state(ConnState::Closed, f) == ConnState::Closed,
        emitted(ConnState::Closed, f) is None,
{
}

} // verus!
