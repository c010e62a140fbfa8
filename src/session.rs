//! The session engine: one state machine per connection that decides, for
//! each step of the receive loop, what the caller performs next.
//!
//! The caller owns the socket and the handler. It feeds the session what
//! happened (a poll of the loop, a received frame, a failed receive, the
//! outcome of a dispatch) and performs the returned [`Step`].
use vstd::prelude::*;
use vstd::string::*;
use crate::codec::{
    build_auth, build_subscribe, classify, control_request, is_acknowledgement, kind_of,
    orderbook_topic, orderbook_topic_spec, views, FrameKind,
};

verus! {

/// How long one bounded receive waits, in milliseconds, before the loop
/// re-checks the run flag and the idle timeout.
pub const POLL_INTERVAL_MS: u64 = 5000;

/// One frame received from the transport.
#[derive(Clone, Debug, PartialEq, Eq)]
pub enum Inbound {
    Text(String),
    Binary(Vec<u8>),
    Ping(Vec<u8>),
    Pong(Vec<u8>),
    Close,
}

/// Why the receive loop ended.
#[derive(Clone, Copy, Debug, PartialEq, Eq, Structural)]
pub enum LoopEnd {
    /// The caller cleared the run flag.
    Cancelled,
    /// No frame arrived for longer than the idle timeout; the connection is
    /// to be closed gracefully.
    IdleTimeout,
    /// The remote end sent a Close frame.
    RemoteClose,
    /// The transport failed while receiving.
    TransportError,
    /// A data frame did not decode into the handler's event type.
    DecodeError,
    /// The handler reported an error.
    HandlerError,
    /// The loop was run without a live connection.
    NotConnected,
}

/// The outcomes that are no failure.
pub open spec fn is_clean(e: LoopEnd) -> bool {
    e == LoopEnd::Cancelled || e == LoopEnd::IdleTimeout || e == LoopEnd::RemoteClose
}

/// How the caller's dispatch of one data frame went.
#[derive(Clone, Copy, Debug, PartialEq, Eq, Structural)]
pub enum Dispatched {
    Done,
    DecodeFailed,
    HandlerFailed,
}

/// What happened since the last step.
#[derive(Clone, Debug, PartialEq, Eq)]
pub enum Input {
    /// The top of a loop iteration, with the run flag and the time in ms.
    Poll { running: bool, now: u64 },
    /// A frame arrived at time `now`.
    Frame { frame: Inbound, now: u64 },
    /// The bounded receive failed at the transport level.
    ReceiveFailed,
    /// The caller finished dispatching the last data frame.
    Dispatch(Dispatched),
}

/// What the caller performs next.
#[derive(Clone, Debug, PartialEq, Eq)]
pub enum Step {
    /// Receive, waiting at most [`POLL_INTERVAL_MS`], then poll again.
    Receive,
    /// Send a Pong control frame with this payload, then poll again.
    SendPong(Vec<u8>),
    /// Decode this payload, hand the event to the handler, await it, and
    /// report the outcome.
    Dispatch(String),
    /// Leave the loop; on `IdleTimeout` close the connection first.
    End(LoopEnd),
}

/// The life cycle of a session.
#[derive(Clone, Copy, Debug, PartialEq, Eq, Structural)]
pub enum Phase {
    /// No connection.
    Idle,
    /// Connected; the loop runs.
    Running,
    /// The loop has ended.
    Ended(LoopEnd),
}

/// The state of one session: its phase, the idle timeout and the time of the
/// last received frame (both in ms), and whether the authentication request
/// has been built on the current connection.
#[derive(Clone, Copy, Debug, PartialEq, Eq, Structural)]
pub struct Session {
    pub phase: Phase,
    pub idle_timeout: Option<u64>,
    pub last_activity: Option<u64>,
    pub auth_sent: bool,
}

/// Whether the silence since the last frame exceeds the idle timeout at `now`.
pub open spec fn idle_expired(s: Session, now: u64) -> bool {
    match (s.idle_timeout, s.last_activity) {
        (Some(t), Some(a)) => now >= a && now - a > t,
        _ => false,
    }
}

/// The activity clock after a frame at `now`: it never goes back.
pub open spec fn touched(last: Option<u64>, now: u64) -> Option<u64> {
    match last {
        Some(a) => if a > now { Some(a) } else { Some(now) },
        None => Some(now),
    }
}

/// `s` with the loop ended by `e`.
pub open spec fn ended(s: Session, e: LoopEnd) -> (Session, Step) {
    (Session { phase: Phase::Ended(e), ..s }, Step::End(e))
}

/// The step taken on a frame received while running.
pub open spec fn on_frame(s: Session, frame: Inbound, now: u64) -> (Session, Step) {
    let s1 = Session { last_activity: touched(s.last_activity, now), ..s };
    match frame {
        Inbound::Ping(p) => (s1, Step::SendPong(p)),
        Inbound::Close => ended(s1, LoopEnd::RemoteClose),
        Inbound::Text(t) => if is_acknowledgement(kind_of(t@)) {
            (s1, Step::Receive)
        } else {
            (s1, Step::Dispatch(t))
        },
        _ => (s1, Step::Receive),
    }
}

/// The transition of the session on one input: the next state and the step.
pub open spec fn next(s: Session, i: Input) -> (Session, Step) {
    match s.phase {
        Phase::Idle => (s, Step::End(LoopEnd::NotConnected)),
        Phase::Ended(e) => (s, Step::End(e)),
        Phase::Running => match i {
            Input::Poll { running, now } => if !running {
                ended(s, LoopEnd::Cancelled)
            } else if idle_expired(s, now) {
                ended(s, LoopEnd::IdleTimeout)
            } else {
                (s, Step::Receive)
            },
            Input::Frame { frame, now } => on_frame(s, frame, now),
            Input::ReceiveFailed => ended(s, LoopEnd::TransportError),
            Input::Dispatch(d) => match d {
                Dispatched::Done => (s, Step::Receive),
                Dispatched::DecodeFailed => ended(s, LoopEnd::DecodeError),
                Dispatched::HandlerFailed => ended(s, LoopEnd::HandlerError),
            },
        },
    }
}

impl Session {
    /// A session without a connection, with an optional idle timeout in ms.
    pub fn new(idle_timeout: Option<u64>) -> (r: Session)
        ensures
            r == (Session { phase: Phase::Idle, idle_timeout, last_activity: None, auth_sent: false }),
    {
        Session { phase: Phase::Idle, idle_timeout, last_activity: None, auth_sent: false }
    }

    /// Records a newly established connection: the loop may run, no frame
    /// has been seen on it yet, and it is not authenticated.
    pub fn connected(&mut self)
        ensures
            *final(self) == (Session {
                phase: Phase::Running,
                idle_timeout: old(self).idle_timeout,
                last_activity: None,
                auth_sent: false,
            }),
    {
        self.phase = Phase::Running;
        self.last_activity = None;
        self.auth_sent = false;
    }

    /// Records that the connection was closed: no connection is left. The
    /// activity clock keeps the time of the last frame.
    pub fn disconnected(&mut self)
        ensures
            *final(self) == (Session {
                phase: Phase::Idle,
                idle_timeout: old(self).idle_timeout,
                last_activity: old(self).last_activity,
                auth_sent: false,
            }),
    {
        self.phase = Phase::Idle;
        self.auth_sent = false;
    }

    /// Whether a connection is live: requests may be sent.
    pub fn is_connected(&self) -> (r: bool)
        ensures
            r == (self.phase is Running),
    {
        match self.phase {
            Phase::Running => true,
            _ => false,
        }
    }

    /// The request that subscribes to the order book of `pair` at depth
    /// `level`; `None` without a live connection.
    pub fn orderbook_request(&self, pair: &str, level: &str) -> (r: Option<String>)
        ensures
            r is Some <==> self.phase is Running,
            r matches Some(f) ==> f@ == control_request(
                "subscribe"@,
                seq![orderbook_topic_spec(level@, pair@)],
            ),
    {
        if !self.is_connected() {
            return None;
        }
        let topics = vec![orderbook_topic(level, pair)];
        assert(views(topics@) =~= seq![orderbook_topic_spec(level@, pair@)]);
        Some(build_subscribe(&topics))
    }

    /// The requests of a private session, in sending order: the `auth`
    /// request with the signed credential, built once per connection, then
    /// the subscription to the `order` topic; `None` without a live
    /// connection.
    pub fn orders_requests(&mut self, signed_credential: &str) -> (r: Option<(Option<String>, String)>)
        ensures
            r is Some <==> old(self).phase is Running,
            r matches Some((a, b)) ==> {
                &&& a is Some <==> !old(self).auth_sent
                &&& a matches Some(x) ==> x@ == control_request("auth"@, seq![signed_credential@])
                &&& b@ == control_request("subscribe"@, seq!["order"@])
            },
            *final(self) == (Session {
                auth_sent: old(self).auth_sent || old(self).phase is Running,
                ..*old(self)
            }),
    {
        if !self.is_connected() {
            return None;
        }
        let auth = if self.auth_sent {
            None
        } else {
            Some(build_auth(signed_credential))
        };
        self.auth_sent = true;
        let topics = vec![String::from_str("order")];
        assert(views(topics@) =~= seq!["order"@]);
        Some((auth, build_subscribe(&topics)))
    }

    /// Takes one step of the receive loop.
    pub fn step(&mut self, input: Input) -> (r: Step)
        ensures
            (*final(self), r) == next(*old(self), input),
    {
        match self.phase {
            Phase::Idle => Step::End(LoopEnd::NotConnected),
            Phase::Ended(e) => Step::End(e),
            Phase::Running => match input {
                Input::Poll { running, now } => {
                    if !running {
                        self.end(LoopEnd::Cancelled)
                    } else if self.idle_expired(now) {
                        self.end(LoopEnd::IdleTimeout)
                    } else {
                        Step::Receive
                    }
                },
                Input::Frame { frame, now } => self.on_frame(frame, now),
                Input::ReceiveFailed => self.end(LoopEnd::TransportError),
                Input::Dispatch(d) => match d {
                    Dispatched::Done => Step::Receive,
                    Dispatched::DecodeFailed => self.end(LoopEnd::DecodeError),
                    Dispatched::HandlerFailed => self.end(LoopEnd::HandlerError),
                },
            },
        }
    }

    fn end(&mut self, e: LoopEnd) -> (r: Step)
        ensures
            (*final(self), r) == ended(*old(self), e),
    {
        self.phase = Phase::Ended(e);
        Step::End(e)
    }

    fn idle_expired(&self, now: u64) -> (r: bool)
        ensures
            r == idle_expired(*self, now),
    {
        match (self.idle_timeout, self.last_activity) {
            (Some(t), Some(a)) => now >= a && now - a > t,
            _ => false,
        }
    }

    fn on_frame(&mut self, frame: Inbound, now: u64) -> (r: Step)
        ensures
            (*final(self), r) == on_frame(*old(self), frame, now),
    {
        self.last_activity = match self.last_activity {
            Some(a) => if a > now { Some(a) } else { Some(now) },
            None => Some(now),
        };
        match frame {
            Inbound::Ping(p) => Step::SendPong(p),
            Inbound::Close => self.end(LoopEnd::RemoteClose),
            Inbound::Text(t) => {
                let k = classify(t.as_str());
                if k == FrameKind::SubscribeAck || k == FrameKind::AuthAck {
                    Step::Receive
                } else {
                    Step::Dispatch(t)
                }
            },
            _ => Step::Receive,
        }
    }
}

} // verus!
