//! Whole primes: what a sequence of answers leads to, from the first action on.

use vstd::prelude::*;

use crate::outcome::{failed_row, ok_row, OutcomeView};
use crate::over_http::{body_error_message, http_row};
use crate::prime::{prime_next, prime_start, timed_out_row};
use crate::protocol::{expects, ActionView, Event, Stage};
use crate::request::{RequestView, WorkerView};

verus! {

/// One prime: its request, its worker, and the UUID that it draws if it comes to
/// build a generate request.
pub struct Setup<B, T> {
    pub req: RequestView<B, T>,
    pub worker: WorkerView,
    pub uuid: Seq<char>,
}

/// Where `events` take the prime, and what it asks for then.
pub open spec fn run<B, T, P>(setup: Setup<B, T>, events: Seq<Event<P>>) -> (Stage, ActionView<B, T, P>)
    decreases events.len(),
{
    if events.len() == 0 {
        prime_start(setup.req, setup.worker)
    } else {
        let stage = run(setup, events.drop_last()).0;
        prime_next(setup.req, setup.worker, setup.uuid, stage, events.last())
    }
}

/// Each of `events` may come in the stage that those before it lead to.
pub open spec fn legal<B, T, P>(setup: Setup<B, T>, events: Seq<Event<P>>) -> bool
    decreases events.len(),
{
    events.len() == 0 || {
        &&& legal(setup, events.drop_last())
        &&& expects(run(setup, events.drop_last()).0, events.last())
    }
}

/// Whether the prime goes over HTTP.
pub open spec fn over_http<B, T>(setup: Setup<B, T>) -> bool {
    setup.worker.connection_mode is Http
}

/// The actions that put a request on the wire.
pub open spec fn sends_request<B, T, P>(action: ActionView<B, T, P>) -> bool {
    action is SendHttp || action is Generate
}

/// How many actions of one kind the prime has asked for.
pub open spec fn times_asked<B, T, P>(
    setup: Setup<B, T>,
    events: Seq<Event<P>>,
    kind: spec_fn(ActionView<B, T, P>) -> bool,
) -> nat
    decreases events.len(),
{
    let before = if events.len() == 0 {
        0
    } else {
        times_asked(setup, events.drop_last(), kind)
    };
    let now: nat = if kind(run(setup, events).1) {
        1
    } else {
        0
    };
    before + now
}

/// How many requests the prime has put on the wire.
pub open spec fn requests_sent<B, T, P>(setup: Setup<B, T>, events: Seq<Event<P>>) -> nat {
    times_asked(setup, events, |action: ActionView<B, T, P>| sends_request(action))
}

/// How often the prime has had its stream marked completed.
pub open spec fn marks<B, T, P>(setup: Setup<B, T>, events: Seq<Event<P>>) -> nat {
    times_asked(setup, events, |action: ActionView<B, T, P>| action is MarkCompleted)
}

/// How often the prime has had its generate request finalized.
pub open spec fn finalizations<B, T, P>(setup: Setup<B, T>, events: Seq<Event<P>>) -> nat {
    times_asked(setup, events, |action: ActionView<B, T, P>| action is FinalizeRequest)
}

/// How many generate calls the prime has made.
pub open spec fn generate_calls<B, T, P>(setup: Setup<B, T>, events: Seq<Event<P>>) -> nat {
    times_asked(setup, events, |action: ActionView<B, T, P>| action is Generate)
}

/// The statuses that the prime has had recorded, in order.
pub open spec fn recorded<B, T, P>(setup: Setup<B, T>, events: Seq<Event<P>>) -> Seq<u16>
    decreases events.len(),
{
    let before = if events.len() == 0 {
        Seq::empty()
    } else {
        recorded(setup, events.drop_last())
    };
    match run(setup, events).1 {
        ActionView::RecordOutcome(status) => before.push(status),
        _ => before,
    }
}

/// The status that the circuit breaker is to learn from `event`.
pub open spec fn answered_status<P>(event: Event<P>) -> Option<u16> {
    match event {
        Event::Replied(status) => Some(status),
        Event::Generated { cb_status } => Some(cb_status),
        Event::GenerateFailed { cb_status, .. } => Some(cb_status),
        _ => None,
    }
}

/// The statuses that the circuit breaker is to learn from `events`, in order.
pub open spec fn answered_statuses<P>(events: Seq<Event<P>>) -> Seq<u16>
    decreases events.len(),
{
    if events.len() == 0 {
        Seq::empty()
    } else {
        let before = answered_statuses(events.drop_last());
        match answered_status(events.last()) {
            Some(status) => before.push(status),
            None => before,
        }
    }
}

/// The status that a failed RPC carries.
pub open spec fn failure_status<P>(event: Event<P>) -> Option<u16> {
    match event {
        Event::GenerateFailed { failure, .. } => Some(failure.http_status),
        Event::StreamFailed(failure) => Some(failure.http_status),
        _ => None,
    }
}

/// Whether the worker answered the request.
pub open spec fn answered<P>(events: Seq<Event<P>>) -> bool {
    exists|i: int| 0 <= i < events.len() && answered_status(#[trigger] events[i]) is Some
}

/// Whether the stream was read to its end.
pub open spec fn stream_ended<P>(events: Seq<Event<P>>) -> bool {
    exists|i: int| 0 <= i < events.len() && (#[trigger] events[i]) is StreamEnded
}

/// How many items the stream gave.
pub open spec fn chunks<P>(events: Seq<Event<P>>) -> nat
    decreases events.len(),
{
    if events.len() == 0 {
        0
    } else if events.last() is Chunk {
        chunks(events.drop_last()) + 1
    } else {
        chunks(events.drop_last())
    }
}

/// The row that `events`, the answers to a prime that is over, lead to.
pub open spec fn report<B, T, P>(setup: Setup<B, T>, events: Seq<Event<P>>) -> OutcomeView {
    match events.last() {
        Event::DeadlineElapsed => timed_out_row(setup.req.timeout),
        Event::BodyFailed(error) => failed_row(None, body_error_message(error)),
        Event::SendFailed(e) => failed_row(None, e@),
        Event::Discarded => http_row(events[1]->Replied_0),
        Event::ClientMissing => failed_row(None, "worker has no backend client"@),
        Event::ClientFailed(e) => failed_row(None, e@),
        Event::BuildFailed(e) => failed_row(None, "failed to build prime request: "@ + e@),
        Event::Recorded => {
            let failure = events[events.len() - 2]->GenerateFailed_failure;
            failed_row(Some(failure.http_status), "generate failed: "@ + failure.message@)
        },
        Event::StreamFailed(failure) => failed_row(
            Some(failure.http_status),
            "prime stream failed: "@ + failure.message@,
        ),
        Event::MarkedCompleted => ok_row(200),
        _ => arbitrary(),
    }
}

/// The answers after which a prime is over.
pub open spec fn final_answer<P>(events: Seq<Event<P>>) -> bool {
    events.len() > 0 && match events.last() {
        Event::DeadlineElapsed => true,
        Event::BodyFailed(_) => true,
        Event::SendFailed(_) => true,
        Event::Discarded => true,
        Event::ClientMissing => true,
        Event::ClientFailed(_) => true,
        Event::BuildFailed(_) => true,
        Event::Recorded => events.len() > 1 && events[events.len() - 2] is GenerateFailed,
        Event::StreamFailed(_) => true,
        Event::MarkedCompleted => true,
        _ => false,
    }
}

/// The events that only a prime over HTTP sees.
pub open spec fn http_event<P>(event: Event<P>) -> bool {
    match event {
        Event::BodyReady(_)
        | Event::BodyFailed(_)
        | Event::Replied(_)
        | Event::SendFailed(_)
        | Event::Discarded => true,
        _ => false,
    }
}

} // verus!
