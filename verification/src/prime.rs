//! A prime from its first action to its row, over whichever wire the worker speaks.

use vstd::prelude::*;

use crate::backend::{backend_next, draws_uuid, prime_backend};
use crate::outcome::{failed_row, OutcomeView, PrimeOutcome};
use crate::over_http::{http_next, prime_http};
use crate::protocol::{expects, http_stage, Action, ActionView, Event, Stage};
use crate::request::{ConnectionMode, PrimeRequest, RequestView, WorkerInfo, WorkerView};
use crate::request_id::{drawn, uuid_v7_text};
use crate::timeout::{duration_debug, timed_out_message, timed_out_text, Timeout};

verus! {

/// The row of a prime that ran out of a timeout of `nanos` nanoseconds.
pub open spec fn timed_out_row(nanos: nat) -> OutcomeView {
    failed_row(None, timed_out_message(nanos))
}

/// Where a prime starts, and what it asks for first.
pub open spec fn prime_start<B, T, P>(req: RequestView<B, T>, worker: WorkerView) -> (
    Stage,
    ActionView<B, T, P>,
) {
    match worker.connection_mode {
        ConnectionMode::Http => (
            Stage::Serializing,
            ActionView::SerializeBody { body: req.body, canonical_model: req.canonical_model },
        ),
        ConnectionMode::Grpc | ConnectionMode::Zmq => (Stage::Acquiring, ActionView::AcquireClient),
    }
}

/// Where a prime goes from `stage` on `event`, and what it asks for next. A deadline
/// that elapses ends it; any other event is the wire's own.
pub open spec fn prime_next<B, T, P>(
    req: RequestView<B, T>,
    worker: WorkerView,
    uuid: Seq<char>,
    stage: Stage,
    event: Event<P>,
) -> (Stage, ActionView<B, T, P>) {
    if event is DeadlineElapsed {
        (Stage::Finished, ActionView::Finish(timed_out_row(req.timeout)))
    } else if http_stage(stage) {
        http_next(req, worker, stage, event)
    } else {
        backend_next(req, worker, uuid, stage, event)
    }
}

/// Starts a prime.
///
/// ZMQ is deliberately not rejected: generate is a first-class ZMQ operation, and
/// acquiring a ZMQ client fails fast rather than driving the lazy handshake, so a ZMQ
/// worker either primes or reports that its handshake has not completed.
pub fn prime_once<'a, B, T, P>(worker: &WorkerInfo, req: &PrimeRequest<'a, B, T>) -> (first: (
    Stage,
    Action<'a, B, T, P>,
))
    ensures
        (first.0, first.1@) == prime_start::<B, T, P>(req@, worker@),
{
    match worker.connection_mode {
        ConnectionMode::Http => (
            Stage::Serializing,
            Action::SerializeBody { body: req.body, canonical_model: req.canonical_model },
        ),
        ConnectionMode::Grpc | ConnectionMode::Zmq => (Stage::Acquiring, Action::AcquireClient),
    }
}

/// The row of a prime that ran out of `timeout`.
pub fn timed_out(timeout: &Timeout) -> (outcome: PrimeOutcome)
    ensures
        outcome@ == timed_out_row(timeout@),
        outcome.http_status is None,
        outcome.error is Some,
        forall|secs: u64, nanos: u32|
            nanos < 1_000_000_000 && timeout@ == secs * 1_000_000_000 + nanos
                ==> outcome.error->0@ == "prime timed out after "@ + #[trigger] duration_debug(
                secs,
                nanos,
            ),
{
    PrimeOutcome::failed(None, timed_out_text(timeout))
}

/// One step of a prime: from where it stands and what came back to where it goes and
/// what it asks for next. The step that builds a generate request names it by a fresh
/// UUID.
pub fn prime_worker<'a, B, T, P>(
    worker: &WorkerInfo,
    req: &PrimeRequest<'a, B, T>,
    stage: Stage,
    event: Event<P>,
) -> (next: (Stage, Action<'a, B, T, P>))
    requires
        expects(stage, event),
    ensures
        !draws_uuid(event) ==> forall|uuid: Seq<char>| (next.0, next.1@) == #[trigger] prime_next(
            req@,
            worker@,
            uuid,
            stage,
            event,
        ),
        draws_uuid(event) ==> exists|uuid: Seq<char>| #[trigger]
            uuid_v7_text(uuid) && drawn(uuid) && (next.0, next.1@) == prime_next(
                req@,
                worker@,
                uuid,
                stage,
                event,
            ),
{
    match (&stage, &event) {
        (_, Event::DeadlineElapsed) => (
            Stage::Finished,
            Action::Finish(timed_out(&req.timeout)),
        ),
        (
            Stage::Serializing
            | Stage::Sending
            | Stage::RecordingReply { .. }
            | Stage::Discarding { .. },
            _,
        ) => prime_http(worker, req, stage, event),
        _ => prime_backend(worker, req, stage, event),
    }
}

} // verus!
