//! What holds of every run of a worker session.
use vstd::prelude::*;

use crate::address::Endpoint;
use crate::message::{ack_message, announced_port, handshake_message, trim_end, HandshakeError};
use crate::session::{fail, next, ActionView, EventView, FailReason, Phase, Session};

verus! {

/// The session reached from `s` through `events`, in order, and the actions
/// returned on the way.
pub open spec fn run(s: Session, events: Seq<EventView>) -> (Session, Seq<ActionView>)
    decreases events.len(),
{
    if events.len() == 0 {
        (s, Seq::empty())
    } else {
        let (t, a) = next(s, events[0]);
        let (u, rest) = run(t, events.drop_first());
        (u, seq![a] + rest)
    }
}

/// Whether an action sends, receives or opens anything on the network.
pub open spec fn uses_network(a: ActionView) -> bool {
    match a {
        ActionView::Wait | ActionView::SendHandshake { .. } | ActionView::Retry { .. } => true,
        _ => false,
    }
}

/// Whether every event of `events` is a listener timeout.
pub open spec fn all_listen_timeouts(events: Seq<EventView>) -> bool {
    forall|i: int| 0 <= i < events.len() ==> #[trigger] events[i] == EventView::ListenTimeout
}

/// A well-formed announcement received from `source` while listening makes
/// the worker send its handshake to the sender's IP at the announced port.
pub proof fn announcement_directs_handshake(s: Session, source: Endpoint, payload: Seq<u8>, port: u16)
    requires
        s.wf(),
        s.phase == Phase::Listening,
        announced_port(payload) == Some(port),
    ensures
        next(s, EventView::Announcement { source, payload }) == (
            s.with_phase(Phase::AwaitingAck { server: Endpoint { ip: source.ip, port } }),
            ActionView::SendHandshake {
                target: Endpoint { ip: source.ip, port },
                payload: handshake_message(s.identity.text_spec()),
            },
        ),
{
}

/// An acknowledgement that carries the worker's identity and comes from the
/// IP the handshake went to establishes exactly that address, whatever the
/// port it comes from.
pub proof fn matching_ack_establishes(s: Session, server: Endpoint, source: Endpoint, payload: Seq<u8>)
    requires
        s.wf(),
        s.phase == (Phase::AwaitingAck { server }),
        trim_end(payload) == ack_message(s.identity.text_spec()),
        source.ip == server.ip,
    ensures
        next(s, EventView::Reply { source, payload }) == (
            s.with_phase(Phase::Established { server }),
            ActionView::Finish { server },
        ),
{
}

/// An acknowledgement with another identity fails the attempt, even when it
/// comes from the right host.
pub proof fn foreign_ack_fails(s: Session, server: Endpoint, source: Endpoint, payload: Seq<u8>)
    requires
        s.wf(),
        s.phase == (Phase::AwaitingAck { server }),
        trim_end(payload) != ack_message(s.identity.text_spec()),
    ensures
        next(s, EventView::Reply { source, payload }) == fail(
            s,
            FailReason::Handshake(HandshakeError::Mismatch),
        ),
        !(next(s, EventView::Reply { source, payload }).0.phase is Established),
        !(next(s, EventView::Reply { source, payload }).1 is Finish),
{
}

/// A listener timeout fails the attempt as a timeout: the worker either
/// retries or stops, and establishes nothing.
pub proof fn listen_timeout_fails(s: Session)
    requires
        s.wf(),
        s.phase == Phase::Listening,
    ensures
        next(s, EventView::ListenTimeout) == fail(s, FailReason::ListenTimeout),
        (next(s, EventView::ListenTimeout).1 is Retry) || (next(s, EventView::ListenTimeout).1 is Abort),
{
}

/// A malformed announcement is discarded: the session is unchanged and the
/// worker keeps listening.
pub proof fn malformed_announcement_discarded(s: Session, source: Endpoint, payload: Seq<u8>)
    requires
        s.wf(),
        s.phase == Phase::Listening,
        (announced_port(payload) is None),
    ensures
        next(s, EventView::Announcement { source, payload }) == (s, ActionView::Wait),
{
}

/// Over any run the identity and the bound on attempts stay as they were,
/// every handshake sent carries that one identity, and the session stays
/// well formed.
pub proof fn identity_fixed_over_run(s: Session, events: Seq<EventView>)
    requires
        s.wf(),
    ensures
        run(s, events).0.wf(),
        run(s, events).0.identity == s.identity,
        run(s, events).0.max_attempts == s.max_attempts,
        forall|i: int|
            0 <= i < run(s, events).1.len() && (#[trigger] run(s, events).1[i]) is SendHandshake
                ==> run(s, events).1[i]->SendHandshake_payload == handshake_message(
                s.identity.text_spec(),
            ),
    decreases events.len(),
{
    if events.len() > 0 {
        let (t, a) = next(s, events[0]);
        identity_fixed_over_run(t, events.drop_first());
        let acts = run(s, events).1;
        let rest = run(t, events.drop_first()).1;
        assert forall|i: int|
            0 <= i < acts.len() && (#[trigger] acts[i]) is SendHandshake implies acts[i]->SendHandshake_payload
                == handshake_message(s.identity.text_spec()) by {
            if i > 0 {
                assert(acts[i] == rest[i - 1]);
            }
        }
    }
}

/// Once a run is aborted it stays so, and every later action is an abort,
/// which touches no network.
pub proof fn aborted_is_final(s: Session, events: Seq<EventView>)
    requires
        (s.phase is Aborted),
    ensures
        run(s, events).0 == s,
        run(s, events).1.len() == events.len(),
        forall|i: int|
            0 <= i < events.len() ==> #[trigger] run(s, events).1[i] == (ActionView::Abort {
                reason: s.phase->Aborted_reason,
            }),
        forall|i: int| 0 <= i < events.len() ==> !uses_network(#[trigger] run(s, events).1[i]),
    decreases events.len(),
{
    if events.len() > 0 {
        aborted_is_final(s, events.drop_first());
        let acts = run(s, events).1;
        let rest = run(s, events.drop_first()).1;
        assert forall|i: int| 0 <= i < events.len() implies #[trigger] acts[i] == (ActionView::Abort {
            reason: s.phase->Aborted_reason,
        }) by {
            if i > 0 {
                assert(acts[i] == rest[i - 1]);
            }
        }
    }
}

/// Listener timeouts only, from a listening session at attempt `k` of `m`:
/// the first `m - k` of them each start the next attempt, the one after
/// aborts the run, and every later one finds it aborted. From a fresh
/// session, the run stops after exactly `m` failed attempts.
pub proof fn aborts_after_max_timeouts(s: Session, events: Seq<EventView>)
    requires
        s.wf(),
        s.phase == Phase::Listening,
        all_listen_timeouts(events),
    ensures
        run(s, events).1.len() == events.len(),
        forall|i: int|
            0 <= i < events.len() ==> #[trigger] run(s, events).1[i] == if i < s.max_attempts - s.attempt {
                ActionView::Retry { attempt: (s.attempt + i + 1) as u32, reason: FailReason::ListenTimeout }
            } else {
                ActionView::Abort { reason: FailReason::ListenTimeout }
            },
        events.len() <= s.max_attempts - s.attempt ==> run(s, events).0.phase == Phase::Listening
            && run(s, events).0.attempt == s.attempt + events.len(),
        events.len() > s.max_attempts - s.attempt ==> run(s, events).0.phase == (Phase::Aborted {
            reason: FailReason::ListenTimeout,
        }),
    decreases events.len(),
{
    if events.len() > 0 {
        assert(events[0] == EventView::ListenTimeout);
        let (t, a) = next(s, events[0]);
        let tail = events.drop_first();
        let acts = run(s, events).1;
        let rest = run(t, tail).1;
        if s.attempt < s.max_attempts {
            assert forall|i: int| 0 <= i < tail.len() implies #[trigger] tail[i] == EventView::ListenTimeout by {
                assert(tail[i] == events[i + 1]);
            }
            aborts_after_max_timeouts(t, tail);
        } else {
            aborted_is_final(t, tail);
        }
        assert forall|i: int| 0 <= i < events.len() implies #[trigger] acts[i] == if i < s.max_attempts
            - s.attempt {
            ActionView::Retry { attempt: (s.attempt + i + 1) as u32, reason: FailReason::ListenTimeout }
        } else {
            ActionView::Abort { reason: FailReason::ListenTimeout }
        } by {
            if i > 0 {
                assert(acts[i] == rest[i - 1]);
            }
        }
    }
}

/// How many of `acts` start a new attempt.
pub open spec fn retries(acts: Seq<ActionView>) -> nat
    decreases acts.len(),
{
    if acts.len() == 0 {
        0
    } else {
        (if acts[0] is Retry { 1nat } else { 0nat }) + retries(acts.drop_first())
    }
}

/// Whatever happens in a run, each retry moves the attempt number up by one
/// and it never passes the bound: from a fresh session at most
/// `max_attempts` attempts are ever made.
pub proof fn attempts_bounded(s: Session, events: Seq<EventView>)
    requires
        s.wf(),
    ensures
        run(s, events).0.attempt == s.attempt + retries(run(s, events).1),
        s.attempt + retries(run(s, events).1) <= s.max_attempts,
    decreases events.len(),
{
    if events.len() > 0 {
        let (t, a) = next(s, events[0]);
        attempts_bounded(t, events.drop_first());
        let acts = run(s, events).1;
        assert(acts.drop_first() =~= run(t, events.drop_first()).1);
    }
}

} // verus!
