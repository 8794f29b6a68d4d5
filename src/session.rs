use crate::codec::{encode_subscribe, msgpack_subscribe, pattern_views, Decoded};
use crate::error::MarketStoreError;
use crate::models::{StreamPayload, SubscribeMessage};
use crate::requests::StreamSubscription;
use vstd::prelude::*;

verus! {

/// Close code for a normal closure.
pub const NORMAL_CLOSURE: u16 = 1000;

/// How long the initiator of a close waits for the peer's echo.
pub const CLOSE_ECHO_TIMEOUT_SECS: u64 = 5;

/// Code and reason carried by a close frame.
#[derive(Debug, Clone)]
pub struct CloseFrame {
    pub code: u16,
    pub reason: String,
}

/// State of the streaming connection.
#[derive(Debug, Clone, Copy, PartialEq, Eq, Structural)]
pub enum ConnectionState {
    Open,
    /// A close frame was sent; the peer's echo is awaited.
    ClosingLocal,
    /// The peer sent a close frame; the echo is being sent.
    ClosingRemote,
    Closed,
}

/// State of the dispatch loop.
#[derive(Debug, Clone, Copy, PartialEq, Eq, Structural)]
pub enum LoopState {
    Running,
    /// Cancellation or a peer close was observed; the session is shutting down.
    Draining,
    Terminated,
}

/// Where a session stands, and what outcome it is waiting for.
#[derive(Debug, Clone, Copy, PartialEq, Eq, Structural)]
pub enum Phase {
    /// The subscribe frame is being sent.
    Subscribing,
    /// Waiting for the next frame or for cancellation.
    Listening,
    /// The handler runs on a data payload.
    Dispatching,
    /// A pong is being sent.
    Answering,
    /// The echo of the peer's close frame is being sent.
    Echoing,
    /// Our close frame is being sent.
    Closing,
    /// Waiting, bounded, for the peer's close frame.
    AwaitingEcho,
    Terminated,
}

/// A frame read from the connection; binary frames come classified.
#[derive(Debug)]
pub enum Inbound {
    Binary(Decoded),
    Text(String),
    Ping(Vec<u8>),
    Pong(Vec<u8>),
    Close(Option<CloseFrame>),
    /// A raw frame of the transport, which carries nothing to act on.
    Raw,
}

/// The outcome of the last action, handed back to the session.
#[derive(Debug)]
pub enum Event {
    /// The frame was sent.
    Sent,
    /// Sending the frame failed.
    SendFailed(String),
    /// The handler returned, whatever its result.
    HandlerReturned,
    /// A frame arrived.
    Received(Inbound),
    /// The connection yields no more frames.
    StreamEnded,
    /// Reading failed.
    ReceiveFailed(String),
    /// The caller's cancellation signal fired.
    Cancelled,
    /// The wait for the peer's close frame ran out.
    TimedOut,
}

/// A frame to send.
#[derive(Debug)]
pub enum Outbound {
    Binary(Vec<u8>),
    Pong(Vec<u8>),
    Close(Option<CloseFrame>),
}

/// What the session asks its runner to do next.
#[derive(Debug)]
pub enum Action {
    /// Send a frame and report `Sent` or `SendFailed`.
    Send(Outbound),
    /// Read the next frame, or observe cancellation.
    Receive,
    /// Run the handler on the payload and report `HandlerReturned`.
    Deliver(StreamPayload),
    /// Read the next frame within what is left of `CLOSE_ECHO_TIMEOUT_SECS`
    /// since our close frame was sent, or report `TimedOut`.
    AwaitCloseEcho,
    /// The session is over, with this result.
    Finish(Result<(), MarketStoreError>),
}

pub open spec fn connection_of(p: Phase) -> ConnectionState {
    match p {
        Phase::Closing | Phase::AwaitingEcho => ConnectionState::ClosingLocal,
        Phase::Echoing => ConnectionState::ClosingRemote,
        Phase::Terminated => ConnectionState::Closed,
        _ => ConnectionState::Open,
    }
}

pub open spec fn loop_of(p: Phase) -> LoopState {
    match p {
        Phase::Closing | Phase::AwaitingEcho | Phase::Echoing => LoopState::Draining,
        Phase::Terminated => LoopState::Terminated,
        _ => LoopState::Running,
    }
}

/// Events that end the wait for the peer's close frame: the close frame
/// itself, the end of the stream, a read error, or the timeout.
pub open spec fn ends_close_wait(e: Event) -> bool {
    ||| e matches Event::Received(Inbound::Close(_))
    ||| e is StreamEnded
    ||| e is ReceiveFailed
    ||| e is TimedOut
}

/// The phase after event `e` in phase `p`. A phase that waits for a send
/// takes every event but `SendFailed` as the send having gone through, and
/// one that waits for the handler takes every event as its return.
pub open spec fn next_phase(p: Phase, e: Event) -> Phase {
    match p {
        Phase::Subscribing | Phase::Answering => if e is SendFailed {
            Phase::Terminated
        } else {
            Phase::Listening
        },
        Phase::Listening => match e {
            Event::Received(Inbound::Binary(Decoded::DataPayload(_))) => Phase::Dispatching,
            Event::Received(Inbound::Ping(_)) => Phase::Answering,
            Event::Received(Inbound::Close(_)) => Phase::Echoing,
            Event::StreamEnded | Event::ReceiveFailed(_) => Phase::Terminated,
            Event::Cancelled => Phase::Closing,
            _ => Phase::Listening,
        },
        Phase::Dispatching => Phase::Listening,
        Phase::Echoing => Phase::Terminated,
        Phase::Closing => if e is SendFailed {
            Phase::Terminated
        } else {
            Phase::AwaitingEcho
        },
        Phase::AwaitingEcho => if ends_close_wait(e) {
            Phase::Terminated
        } else {
            Phase::AwaitingEcho
        },
        Phase::Terminated => Phase::Terminated,
    }
}

/// `a` sends a close frame with the normal-closure code and reason.
pub open spec fn is_normal_close(a: Action) -> bool {
    a matches Action::Send(Outbound::Close(Some(f))) && f.code == NORMAL_CLOSURE && f.reason@
        == "Normal closure"@
}

/// `a` is the session's answer to event `e` in phase `p`.
pub open spec fn answers(p: Phase, e: Event, a: Action) -> bool {
    match p {
        Phase::Subscribing | Phase::Answering | Phase::Echoing | Phase::Closing => match e {
            Event::SendFailed(m) => a == Action::Finish(Err(MarketStoreError::WebSocket(m))),
            _ => a == match p {
                Phase::Echoing => Action::Finish(Ok(())),
                Phase::Closing => Action::AwaitCloseEcho,
                _ => Action::Receive,
            },
        },
        Phase::Listening => match e {
            Event::Received(Inbound::Binary(Decoded::DataPayload(d))) => a == Action::Deliver(d),
            Event::Received(Inbound::Ping(d)) => a == Action::Send(Outbound::Pong(d)),
            Event::Received(Inbound::Close(f)) => a == Action::Send(Outbound::Close(f)),
            Event::StreamEnded => a == Action::Finish(Ok(())),
            Event::ReceiveFailed(m) => a == Action::Finish(Err(MarketStoreError::WebSocket(m))),
            Event::Cancelled => is_normal_close(a),
            _ => a == Action::Receive,
        },
        Phase::Dispatching => a == Action::Receive,
        Phase::AwaitingEcho => if ends_close_wait(e) {
            a == Action::Finish(Ok(()))
        } else {
            a == Action::AwaitCloseEcho
        },
        Phase::Terminated => false,
    }
}

/// The close frame that starts a close handshake of our own.
fn normal_close() -> (a: Action)
    ensures
        is_normal_close(a),
{
    let frame = CloseFrame { code: NORMAL_CLOSURE, reason: String::from_str("Normal closure") };
    Action::Send(Outbound::Close(Some(frame)))
}

/// One streaming session: a subscription, then the dispatch loop, then the
/// close handshake.
pub struct Session {
    phase: Phase,
}

impl View for Session {
    type V = Phase;

    closed spec fn view(&self) -> Phase {
        self.phase
    }
}

impl Session {
    /// Starts a session for `subscription`: its first action sends the one
    /// subscribe frame naming every pattern, in order. An empty subscription
    /// is valid and subscribes to nothing.
    pub fn open(subscription: &StreamSubscription) -> (r: (Session, Action))
        ensures
            r.0@ == Phase::Subscribing,
            r.1 matches Action::Send(Outbound::Binary(b)) && b@ == msgpack_subscribe(
                pattern_views(subscription.streams@),
            ),
    {
        let message = SubscribeMessage { streams: subscription.streams.clone() };
        proof {
            assert(message.streams@ =~= subscription.streams@);
        }
        match encode_subscribe(&message) {
            Ok(bytes) => (Session { phase: Phase::Subscribing }, Action::Send(Outbound::Binary(bytes))),
            // Not reached: encoding succeeds.
            Err(e) => (Session { phase: Phase::Terminated }, Action::Finish(Err(e))),
        }
    }

    /// Starts the close handshake on an open connection that no session
    /// reads: the first action sends our close frame, after which the peer's
    /// echo is awaited as in a cancelled session.
    pub fn closing() -> (r: (Session, Action))
        ensures
            r.0@ == Phase::Closing,
            is_normal_close(r.1),
    {
        (Session { phase: Phase::Closing }, normal_close())
    }

    pub fn phase(&self) -> (r: Phase)
        ensures
            r == self@,
    {
        self.phase
    }

    pub fn connection_state(&self) -> (r: ConnectionState)
        ensures
            r == connection_of(self@),
    {
        match self.phase {
            Phase::Closing | Phase::AwaitingEcho => ConnectionState::ClosingLocal,
            Phase::Echoing => ConnectionState::ClosingRemote,
            Phase::Terminated => ConnectionState::Closed,
            _ => ConnectionState::Open,
        }
    }

    pub fn loop_state(&self) -> (r: LoopState)
        ensures
            r == loop_of(self@),
    {
        match self.phase {
            Phase::Closing | Phase::AwaitingEcho | Phase::Echoing => LoopState::Draining,
            Phase::Terminated => LoopState::Terminated,
            _ => LoopState::Running,
        }
    }

    pub fn is_terminated(&self) -> (r: bool)
        ensures
            r == (self@ == Phase::Terminated),
    {
        self.phase == Phase::Terminated
    }

    /// Takes the outcome of the last action and returns the next action.
    pub fn step(&mut self, event: Event) -> (a: Action)
        requires
            old(self)@ != Phase::Terminated,
        ensures
            final(self)@ == next_phase(old(self)@, event),
            answers(old(self)@, event, a),
    {
        match self.phase {
            Phase::Subscribing | Phase::Answering => match event {
                Event::SendFailed(m) => {
                    self.phase = Phase::Terminated;
                    Action::Finish(Err(MarketStoreError::WebSocket(m)))
                },
                _ => {
                    self.phase = Phase::Listening;
                    Action::Receive
                },
            },
            Phase::Listening => match event {
                Event::Received(Inbound::Binary(Decoded::DataPayload(d))) => {
                    self.phase = Phase::Dispatching;
                    Action::Deliver(d)
                },
                Event::Received(Inbound::Ping(d)) => {
                    self.phase = Phase::Answering;
                    Action::Send(Outbound::Pong(d))
                },
                Event::Received(Inbound::Close(f)) => {
                    self.phase = Phase::Echoing;
                    Action::Send(Outbound::Close(f))
                },
                Event::StreamEnded => {
                    self.phase = Phase::Terminated;
                    Action::Finish(Ok(()))
                },
                Event::ReceiveFailed(m) => {
                    self.phase = Phase::Terminated;
                    Action::Finish(Err(MarketStoreError::WebSocket(m)))
                },
                Event::Cancelled => {
                    self.phase = Phase::Closing;
                    normal_close()
                },
                _ => Action::Receive,
            },
            Phase::Dispatching => {
                self.phase = Phase::Listening;
                Action::Receive
            },
            Phase::Echoing => {
                self.phase = Phase::Terminated;
                match event {
                    Event::SendFailed(m) => Action::Finish(Err(MarketStoreError::WebSocket(m))),
                    _ => Action::Finish(Ok(())),
                }
            },
            Phase::Closing => match event {
                Event::SendFailed(m) => {
                    self.phase = Phase::Terminated;
                    Action::Finish(Err(MarketStoreError::WebSocket(m)))
                },
                _ => {
                    self.phase = Phase::AwaitingEcho;
                    Action::AwaitCloseEcho
                },
            },
            Phase::AwaitingEcho => match event {
                Event::Received(Inbound::Close(_)) | Event::StreamEnded | Event::ReceiveFailed(_)
                | Event::TimedOut => {
                    self.phase = Phase::Terminated;
                    Action::Finish(Ok(()))
                },
                _ => Action::AwaitCloseEcho,
            },
            // Not reached: a terminated session takes no more events.
            Phase::Terminated => Action::Finish(Ok(())),
        }
    }
}

} // verus!
