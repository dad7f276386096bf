use vstd::prelude::*;

use crate::address::Endpoint;
use crate::identity::WorkerIdentity;
use crate::message::{
    ack_accepted, ack_message, announced_port, check_ack, handshake_message, handshake_payload,
    parse_announcement, trim_end, HandshakeError,
};

verus! {

/// How a worker paces its discovery: how many attempts it makes, how long it
/// waits on each receive, and how long it pauses between attempts.
#[derive(Clone, Copy, Debug, PartialEq, Eq, Structural)]
pub struct RetryConfig {
    pub max_attempts: u32,
    pub read_timeout_ms: u64,
    pub retry_delay_ms: u64,
}

impl RetryConfig {
    /// Five attempts, five seconds per receive, no pause between attempts.
    pub fn standard() -> (r: RetryConfig)
        ensures
            r.max_attempts == 5,
            r.read_timeout_ms == 5000,
            r.retry_delay_ms == 0,
    {
        RetryConfig { max_attempts: 5, read_timeout_ms: 5000, retry_delay_ms: 0 }
    }
}

/// Why an attempt failed.
#[derive(Clone, Copy, Debug, PartialEq, Eq, Structural)]
pub enum FailReason {
    /// No well-formed announcement arrived in time.
    ListenTimeout,
    /// The handshake was not acknowledged.
    Handshake(HandshakeError),
}

/// Where a worker stands in its run.
#[derive(Clone, Copy, Debug, PartialEq, Eq, Structural)]
pub enum Phase {
    /// Waiting on fresh sockets for an announcement.
    Listening,
    /// The handshake went to `server`; waiting for its acknowledgement.
    AwaitingAck { server: Endpoint },
    /// The handshake with `server` succeeded.
    Established { server: Endpoint },
    /// Every attempt failed; the last failed for `reason`.
    Aborted { reason: FailReason },
}

/// What the caller observed while waiting.
pub enum Event {
    /// A datagram arrived on the listener socket.
    Announcement { source: Endpoint, payload: Vec<u8> },
    /// The listener's receive timed out.
    ListenTimeout,
    /// A datagram arrived on the handshake socket.
    Reply { source: Endpoint, payload: Vec<u8> },
    /// The handshake socket's receive timed out.
    ReplyTimeout,
}

/// The mathematical value of an [`Event`].
pub enum EventView {
    Announcement { source: Endpoint, payload: Seq<u8> },
    ListenTimeout,
    Reply { source: Endpoint, payload: Seq<u8> },
    ReplyTimeout,
}

impl View for Event {
    type V = EventView;

    open spec fn view(&self) -> EventView {
        match self {
            Event::Announcement { source, payload } => EventView::Announcement {
                source: *source,
                payload: payload@,
            },
            Event::ListenTimeout => EventView::ListenTimeout,
            Event::Reply { source, payload } => EventView::Reply { source: *source, payload: payload@ },
            Event::ReplyTimeout => EventView::ReplyTimeout,
        }
    }
}

/// What the caller does next.
pub enum Action {
    /// Keep waiting on the same socket, within what is left of its timeout.
    Wait,
    /// Send `payload` to `target` from the handshake socket, then wait there
    /// for the reply.
    SendHandshake { target: Endpoint, payload: Vec<u8> },
    /// Release this attempt's sockets and start attempt number `attempt` on
    /// fresh ones.
    Retry { attempt: u32, reason: FailReason },
    /// Release the sockets and report `server` as the established address.
    Finish { server: Endpoint },
    /// Release the sockets, report failure and stop with a non-zero status;
    /// no further network calls.
    Abort { reason: FailReason },
}

/// The mathematical value of an [`Action`].
pub enum ActionView {
    Wait,
    SendHandshake { target: Endpoint, payload: Seq<u8> },
    Retry { attempt: u32, reason: FailReason },
    Finish { server: Endpoint },
    Abort { reason: FailReason },
}

impl View for Action {
    type V = ActionView;

    open spec fn view(&self) -> ActionView {
        match self {
            Action::Wait => ActionView::Wait,
            Action::SendHandshake { target, payload } => ActionView::SendHandshake {
                target: *target,
                payload: payload@,
            },
            Action::Retry { attempt, reason } => ActionView::Retry { attempt: *attempt, reason: *reason },
            Action::Finish { server } => ActionView::Finish { server: *server },
            Action::Abort { reason } => ActionView::Abort { reason: *reason },
        }
    }
}

/// The state of one worker run: its identity, the bound on attempts, the
/// number of the current attempt (from 1) and the phase it is in.
#[derive(Clone, Copy, Debug, PartialEq, Eq, Structural)]
pub struct Session {
    pub identity: WorkerIdentity,
    pub max_attempts: u32,
    pub attempt: u32,
    pub phase: Phase,
}

impl Session {
    pub open spec fn wf(self) -> bool {
        1 <= self.attempt <= self.max_attempts
    }

    /// This session with another phase.
    pub open spec fn with_phase(self, phase: Phase) -> Session {
        Session { identity: self.identity, max_attempts: self.max_attempts, attempt: self.attempt, phase }
    }

    /// A fresh session at its first attempt, listening; `None` where the
    /// configuration allows no attempt at all.
    pub fn new(identity: WorkerIdentity, config: RetryConfig) -> (r: Option<Session>)
        ensures
            r is None <==> config.max_attempts == 0,
            r matches Some(s) ==> s.wf() && s == (Session {
                identity,
                max_attempts: config.max_attempts,
                attempt: 1,
                phase: Phase::Listening,
            }),
    {
        if config.max_attempts == 0 {
            None
        } else {
            Some(Session { identity, max_attempts: config.max_attempts, attempt: 1, phase: Phase::Listening })
        }
    }

    /// Takes in what the caller observed and returns what it must do next.
    pub fn step(&mut self, event: &Event) -> (r: Action)
        requires
            old(self).wf(),
        ensures
            final(self).wf(),
            (*final(self), r@) == next(*old(self), event@),
    {
        match self.phase {
            Phase::Listening => match event {
                Event::Announcement { source, payload } => match parse_announcement(payload.as_slice()) {
                    Some(port) => {
                        let server = Endpoint { ip: source.ip, port };
                        self.phase = Phase::AwaitingAck { server };
                        Action::SendHandshake { target: server, payload: handshake_payload(&self.identity) }
                    },
                    None => Action::Wait,
                },
                Event::ListenTimeout => self.fail(FailReason::ListenTimeout),
                _ => Action::Wait,
            },
            Phase::AwaitingAck { server } => match event {
                Event::Reply { source, payload } => match check_ack(payload.as_slice(), *source, server, &self.identity) {
                    Ok(()) => {
                        self.phase = Phase::Established { server };
                        Action::Finish { server }
                    },
                    Err(e) => self.fail(FailReason::Handshake(e)),
                },
                Event::ReplyTimeout => self.fail(FailReason::Handshake(HandshakeError::Timeout)),
                _ => Action::Wait,
            },
            Phase::Established { server } => Action::Finish { server },
            Phase::Aborted { reason } => Action::Abort { reason },
        }
    }

    fn fail(&mut self, reason: FailReason) -> (r: Action)
        requires
            old(self).wf(),
        ensures
            final(self).wf(),
            (*final(self), r@) == fail(*old(self), reason),
    {
        if self.attempt < self.max_attempts {
            self.attempt = self.attempt + 1;
            self.phase = Phase::Listening;
            Action::Retry { attempt: self.attempt, reason }
        } else {
            self.phase = Phase::Aborted { reason };
            Action::Abort { reason }
        }
    }
}

/// The outcome of a failed attempt: the next attempt where one is left,
/// otherwise the end of the run.
pub open spec fn fail(s: Session, reason: FailReason) -> (Session, ActionView) {
    if s.attempt < s.max_attempts {
        (
            Session {
                identity: s.identity,
                max_attempts: s.max_attempts,
                attempt: (s.attempt + 1) as u32,
                phase: Phase::Listening,
            },
            ActionView::Retry { attempt: (s.attempt + 1) as u32, reason },
        )
    } else {
        (s.with_phase(Phase::Aborted { reason }), ActionView::Abort { reason })
    }
}

/// The session and action that follow `s` when the caller observes `e`.
pub open spec fn next(s: Session, e: EventView) -> (Session, ActionView) {
    let id = s.identity.text_spec();
    match s.phase {
        Phase::Listening => match e {
            EventView::Announcement { source, payload } => match announced_port(payload) {
                Some(port) => {
                    let server = Endpoint { ip: source.ip, port };
                    (
                        s.with_phase(Phase::AwaitingAck { server }),
                        ActionView::SendHandshake { target: server, payload: handshake_message(id) },
                    )
                },
                None => (s, ActionView::Wait),
            },
            EventView::ListenTimeout => fail(s, FailReason::ListenTimeout),
            _ => (s, ActionView::Wait),
        },
        Phase::AwaitingAck { server } => match e {
            EventView::Reply { source, payload } => if ack_accepted(payload, source, server, id) {
                (s.with_phase(Phase::Established { server }), ActionView::Finish { server })
            } else if trim_end(payload) != ack_message(id) {
                fail(s, FailReason::Handshake(HandshakeError::Mismatch))
            } else {
                fail(s, FailReason::Handshake(HandshakeError::WrongSource))
            },
            EventView::ReplyTimeout => fail(s, FailReason::Handshake(HandshakeError::Timeout)),
            _ => (s, ActionView::Wait),
        },
        Phase::Established { server } => (s, ActionView::Finish { server }),
        Phase::Aborted { reason } => (s, ActionView::Abort { reason }),
    }
}

} // verus!
