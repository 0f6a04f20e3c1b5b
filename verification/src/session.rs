//! The per-connection lifecycle and heartbeat state machine.
//!
//! One [`Session`] belongs to one duplex connection. The surrounding host
//! drives it: for every inbound frame it calls [`Session::handle_frame`] and
//! performs the returned [`Action`]; on a recurring schedule (every
//! [`HEARTBEAT_INTERVAL`] time units) it calls [`Session::heartbeat_check`].
//! The machine itself decides every state change and every outbound frame,
//! so the whole protocol policy is verified here.
//!
//! A data frame carries a request through decoding and the synchronous
//! solve before it reaches the machine; the machine receives the outcome of
//! that work as a [`SolveOutcome`] and decides what to send back. Decode and
//! integration failures are recoverable: the machine answers with the
//! structured error envelope and stays open. Any frame kind outside the
//! protocol is fatal and closes the connection at once.

use vstd::prelude::*;

use crate::encode::error_envelope;
use crate::encode::spec_error_envelope;

verus! {

/// How often the recurring heartbeat check fires, in time units.
pub const HEARTBEAT_INTERVAL: u64 = 5;

/// How long a connection may go without an inbound ping, pong or data
/// frame before the heartbeat check closes it, in time units.
pub const CLIENT_TIMEOUT: u64 = 10;

/// The lifecycle of one connection. `Open` accepts frames; `Closing` has
/// echoed a close frame and waits for teardown; `Closed` is terminal and is
/// never left again.
#[derive(Clone, Copy, Debug, PartialEq, Eq)]
pub enum SessionState {
    Open,
    Closing,
    Closed,
}

/// What became of the request carried by one inbound data frame: the
/// encoded trajectory payload, or the failure detail of the stage that
/// rejected it.
#[derive(Debug, PartialEq, Eq)]
pub enum SolveOutcome {
    Solved(String),
    DecodeFailed(String),
    IntegrationFailed(String),
}

/// One inbound frame, as the machine sees it. A control ping carries its
/// payload, which the answering pong must echo; a data frame carries the
/// outcome of the solve it triggered; every frame kind outside the protocol
/// is `Other`.
#[derive(Debug, PartialEq, Eq)]
pub enum Frame {
    Ping(Vec<u8>),
    Pong,
    Text(SolveOutcome),
    Close,
    Other,
}

/// What the host must do after handing the machine an event: send a control
/// or data frame, echo the close frame it just received, tear the
/// connection down, or nothing.
#[derive(Debug, PartialEq, Eq)]
pub enum Action {
    SendPong(Vec<u8>),
    SendText(String),
    SendPing,
    EchoClose,
    Disconnect,
    Nothing,
}

/// The per-connection record: the lifecycle state and the time of the last
/// inbound ping, pong or data frame, in time units.
pub struct Session {
    pub state: SessionState,
    pub last_heartbeat: u64,
}

impl Session {
    /// On connect: enter `Open` with the heartbeat clock set to now.
    pub fn new(now: u64) -> (s: Session)
        ensures
            s.state is Open,
            s.last_heartbeat == now,
    {
        Session { state: SessionState::Open, last_heartbeat: now }
    }

    /// Decide on one inbound frame.
    ///
    /// While open: a ping refreshes the heartbeat and is answered by a pong
    /// echoing its payload; a pong refreshes the heartbeat; a data frame
    /// refreshes the heartbeat and is answered by the solved payload, or by
    /// the error envelope of the stage that failed, the connection staying
    /// open either way; a close frame is echoed and moves to `Closing`; any
    /// other frame kind closes the connection at once. Once `Closing` or
    /// `Closed`, nothing changes and nothing is sent.
    pub fn handle_frame(&mut self, now: u64, frame: Frame) -> (a: Action)
        ensures
            !(old(self).state is Open) ==> *final(self) == *old(self) && a is Nothing,
            old(self).state is Open ==> match frame {
                Frame::Ping(payload) => final(self).state is Open && final(self).last_heartbeat == now
                    && a == Action::SendPong(payload),
                Frame::Pong => final(self).state is Open && final(self).last_heartbeat == now && a is Nothing,
                Frame::Text(outcome) => final(self).state is Open && final(self).last_heartbeat == now
                    && match outcome {
                        SolveOutcome::Solved(payload) => a == Action::SendText(payload),
                        SolveOutcome::DecodeFailed(detail) => (a matches Action::SendText(r)
                            && r@ == spec_error_envelope("DecodeError"@, detail@)),
                        SolveOutcome::IntegrationFailed(detail) => (a matches Action::SendText(r)
                            && r@ == spec_error_envelope("IntegrationError"@, detail@)),
                    },
                Frame::Close => final(self).state is Closing
                    && final(self).last_heartbeat == old(self).last_heartbeat && a is EchoClose,
                Frame::Other => final(self).state is Closed
                    && final(self).last_heartbeat == old(self).last_heartbeat && a is Disconnect,
            },
    {
        match self.state {
            SessionState::Open => match frame {
                Frame::Ping(payload) => {
                    self.last_heartbeat = now;
                    Action::SendPong(payload)
                },
                Frame::Pong => {
                    self.last_heartbeat = now;
                    Action::Nothing
                },
                Frame::Text(outcome) => {
                    self.last_heartbeat = now;
                    match outcome {
                        SolveOutcome::Solved(payload) => Action::SendText(payload),
                        SolveOutcome::DecodeFailed(detail) => Action::SendText(
                            error_envelope("DecodeError", detail.as_str()),
                        ),
                        SolveOutcome::IntegrationFailed(detail) => Action::SendText(
                            error_envelope("IntegrationError", detail.as_str()),
                        ),
                    }
                },
                Frame::Close => {
                    self.state = SessionState::Closing;
                    Action::EchoClose
                },
                Frame::Other => {
                    self.state = SessionState::Closed;
                    Action::Disconnect
                },
            },
            _ => Action::Nothing,
        }
    }

    /// The recurring heartbeat check.
    ///
    /// While open: if more than [`CLIENT_TIMEOUT`] time units have passed
    /// since the last inbound ping, pong or data frame, the connection is
    /// closed without sending a further ping; otherwise a ping goes out and
    /// nothing changes. Once `Closing` or `Closed`, nothing changes and
    /// nothing is sent.
    pub fn heartbeat_check(&mut self, now: u64) -> (a: Action)
        requires
            old(self).state is Open ==> old(self).last_heartbeat <= now,
        ensures
            old(self).state is Open && now - old(self).last_heartbeat > CLIENT_TIMEOUT
                ==> final(self).state is Closed && final(self).last_heartbeat == old(self).last_heartbeat
                && a is Disconnect,
            old(self).state is Open && now - old(self).last_heartbeat <= CLIENT_TIMEOUT
                ==> *final(self) == *old(self) && a is SendPing,
            !(old(self).state is Open) ==> *final(self) == *old(self) && a is Nothing,
    {
        match self.state {
            SessionState::Open => {
                if now - self.last_heartbeat > CLIENT_TIMEOUT {
                    self.state = SessionState::Closed;
                    Action::Disconnect
                } else {
                    Action::SendPing
                }
            },
            _ => Action::Nothing,
        }
    }

    /// The transport is torn down: enter the terminal state, whatever came
    /// before.
    pub fn connection_closed(&mut self)
        ensures
            final(self).state is Closed,
            final(self).last_heartbeat == old(self).last_heartbeat,
    {
        self.state = SessionState::Closed;
    }
}

} // verus!
