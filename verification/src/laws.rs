//! What holds of every prime, whatever its worker answers.

use vstd::prelude::*;

use crate::outcome::{success_status, OutcomeView};
use crate::over_http::completion_request;
use crate::prime::timed_out_row;
use crate::protocol::{awaiting, expects, ActionView, BodyError, Event, Stage};
use crate::request::{low_i32, ConnectionMode, WorkerView};
use crate::request_id::request_id;
use crate::run::{
    answered, answered_status, answered_statuses, chunks, failure_status, final_answer,
    finalizations, generate_calls, http_event, legal, marks, over_http, recorded, report,
    requests_sent, run, stream_ended, Setup,
};
use crate::text::decimal;

verus! {

/// How many answers the rank takes.
spec fn rank_answers<B, T>(setup: Setup<B, T>) -> int {
    if setup.worker.dp_rank is Some {
        1
    } else {
        0
    }
}

/// What `events` were, and what was asked for last, in each stage that they can lead
/// to.
spec fn history<B, T, P>(setup: Setup<B, T>, events: Seq<Event<P>>) -> bool {
    let (stage, action) = run(setup, events);
    let n = events.len() as int;
    let r = rank_answers(setup);
    let http = over_http(setup);
    &&& !(stage is Draining || stage is Completing || stage is Finished) ==> chunks(events) == 0
    &&& match stage {
        Stage::Serializing => {
            &&& http
            &&& n == 0
            &&& action == (ActionView::<B, T, P>::SerializeBody {
                body: setup.req.body,
                canonical_model: setup.req.canonical_model,
            })
        },
        Stage::Sending => {
            &&& http
            &&& n == 1
            &&& events[0] is BodyReady
            &&& action == ActionView::<B, T, P>::SendHttp(
                completion_request(setup.req, setup.worker, events[0]->BodyReady_0@),
            )
        },
        Stage::RecordingReply { status } => {
            &&& http
            &&& n == 2
            &&& events[1] == Event::<P>::Replied(status)
            &&& action == ActionView::<B, T, P>::RecordOutcome(status)
        },
        Stage::Discarding { status } => {
            &&& http
            &&& n == 3
            &&& events[1] == Event::<P>::Replied(status)
            &&& action is DiscardBody
        },
        Stage::Acquiring => !http && n == 0 && action is AcquireClient,
        Stage::Building => {
            &&& !http
            &&& n == 1
            &&& action == (ActionView::<B, T, P>::BuildRequest {
                request_id: request_id(setup.uuid),
                body: setup.req.body,
                prompt: setup.req.prompt,
                token_ids: setup.req.token_ids,
            })
        },
        Stage::Finalizing => {
            &&& !http
            &&& n == 2
            &&& events[1] is RequestBuilt
            &&& action == (ActionView::<B, T, P>::FinalizeRequest {
                request: events[1]->RequestBuilt_0,
                tokenizer: setup.req.tokenizer,
            })
        },
        Stage::Ranking => {
            &&& !http
            &&& n == 3
            &&& r == 1
            &&& events[2] is RequestFinalized
            &&& action == (ActionView::<B, T, P>::SetRank {
                request: events[2]->RequestFinalized_0,
                rank: low_i32(setup.worker.dp_rank->0 as nat) as i32,
            })
        },
        Stage::Generating => {
            &&& !http
            &&& n == 3 + r
            &&& r == 0 ==> events[2] is RequestFinalized
            &&& r == 1 ==> events[3] is RankSet
            &&& action == ActionView::<B, T, P>::Generate(
                if r == 1 {
                    events[3]->RankSet_0
                } else {
                    events[2]->RequestFinalized_0
                },
            )
        },
        Stage::RecordingGenerate { failure } => {
            &&& !http
            &&& n == 4 + r
            &&& action is RecordOutcome
            &&& match failure {
                Some(f) => events[n - 1] is GenerateFailed
                    && events[n - 1]->GenerateFailed_failure == f,
                None => events[n - 1] is Generated,
            }
        },
        Stage::Draining => !http && n == 5 + r + chunks(events) && action is NextItem,
        Stage::Completing => {
            &&& !http
            &&& n == 6 + r + chunks(events)
            &&& action is MarkCompleted
            &&& events[n - 1] is StreamEnded
        },
        Stage::Finished => {
            &&& n <= 7 + r + chunks(events)
            &&& final_answer(events)
            &&& action == ActionView::<B, T, P>::Finish(report(setup, events))
            &&& http ==> http_event(events.last()) || events.last() is DeadlineElapsed
            &&& http && events.last() is Discarded ==> n == 4 && events[1] is Replied
            &&& !http ==> !http_event(events.last())
        },
    }
}

proof fn lemma_history<B, T, P>(setup: Setup<B, T>, events: Seq<Event<P>>)
    requires
        legal(setup, events),
    ensures
        history(setup, events),
    decreases events.len(),
{
    if events.len() > 0 {
        lemma_history(setup, events.drop_last());
    }
}

/// The answers that an action can get. One that is awaited can also see the deadline
/// elapse.
pub open spec fn answers<B, T, P>(action: ActionView<B, T, P>, event: Event<P>) -> bool {
    match action {
        ActionView::SerializeBody { .. } => event is BodyReady || event is BodyFailed,
        ActionView::SendHttp(_) => event is Replied || event is SendFailed
            || event is DeadlineElapsed,
        ActionView::RecordOutcome(_) => event is Recorded,
        ActionView::DiscardBody => event is Discarded || event is DeadlineElapsed,
        ActionView::AcquireClient => event is ClientReady || event is ClientMissing
            || event is ClientFailed || event is DeadlineElapsed,
        ActionView::BuildRequest { .. } => event is RequestBuilt || event is BuildFailed,
        ActionView::FinalizeRequest { .. } => event is RequestFinalized,
        ActionView::SetRank { .. } => event is RankSet,
        ActionView::Generate(_) => event is Generated || event is GenerateFailed
            || event is DeadlineElapsed,
        ActionView::NextItem => event is Chunk || event is StreamFailed || event is StreamEnded
            || event is DeadlineElapsed,
        ActionView::MarkCompleted => event is MarkedCompleted,
        ActionView::Finish(_) => false,
    }
}

/// A prime takes every answer that the action it asked for can get, and no other. So
/// a caller that performs each action and hands back what came of it never gets stuck
/// and never breaks the protocol.
pub proof fn law_answers_fit_the_action<B, T, P>(setup: Setup<B, T>, events: Seq<Event<P>>, event: Event<P>)
    requires
        legal(setup, events),
    ensures
        expects(run(setup, events).0, event) <==> answers(run(setup, events).1, event),
        legal(setup, events.push(event)) <==> answers(run(setup, events).1, event),
{
    lemma_history(setup, events);
    assert(events.push(event).drop_last() =~= events);
}

/// A prime is over when it reports its row, and not before; then nothing follows.
pub proof fn law_finishes_once<B, T, P>(setup: Setup<B, T>, events: Seq<Event<P>>)
    requires
        legal(setup, events),
    ensures
        run(setup, events).0 is Finished <==> run(setup, events).1 is Finish,
        run(setup, events).0 is Finished <==> final_answer(events),
        forall|event: Event<P>| #[trigger]
            legal(setup, events.push(event)) ==> !(run(setup, events).1 is Finish),
{
    lemma_history(setup, events);
    if final_answer(events) {
        lemma_final_answer(setup, events);
    }
    assert forall|event: Event<P>| #[trigger] legal(setup, events.push(event)) implies !(run(
        setup,
        events,
    ).1 is Finish) by {
        law_answers_fit_the_action(setup, events, event);
    }
}

proof fn lemma_final_answer<B, T, P>(setup: Setup<B, T>, events: Seq<Event<P>>)
    requires
        legal(setup, events),
        final_answer(events),
    ensures
        run(setup, events).0 is Finished,
{
    let before = events.drop_last();
    lemma_history(setup, before);
}

/// The row of a prime that is over says what the last answers said.
pub proof fn law_row_reports_the_answers<B, T, P>(setup: Setup<B, T>, events: Seq<Event<P>>)
    requires
        legal(setup, events),
        final_answer(events),
    ensures
        run(setup, events).1 == ActionView::<B, T, P>::Finish(report(setup, events)),
{
    lemma_history(setup, events);
    lemma_final_answer(setup, events);
}

/// The status and the error of a row come from the answers that ended the prime, each
/// from the very answer that carries it: a failed generate call or a broken stream from
/// the failure, an engine's answer over HTTP from its status. A prime that ended without
/// an answer has a null status.
pub proof fn law_row_of_each_answer<B, T, P>(
    setup: Setup<B, T>,
    events: Seq<Event<P>>,
    row: OutcomeView,
)
    requires
        legal(setup, events),
        run(setup, events).1 == ActionView::<B, T, P>::Finish(row),
    ensures
        events.len() > 0,
        match events.last() {
            Event::BodyFailed(BodyError::Serialize(e)) => row.http_status is None && row.error
                == Some("failed to serialize prime body: "@ + e@),
            Event::BodyFailed(BodyError::Prepare(e)) => row.http_status is None && row.error
                == Some("failed to prepare prime body: "@ + e@),
            Event::SendFailed(e) => row.http_status is None && row.error == Some(e@),
            Event::Discarded => {
                &&& events.len() == 4
                &&& events[1] is Replied
                &&& row.http_status == Some(events[1]->Replied_0)
                &&& row.error == if 200 <= events[1]->Replied_0 <= 299 {
                    None
                } else {
                    Some("HTTP "@ + decimal(events[1]->Replied_0 as nat))
                }
            },
            Event::ClientMissing => row.http_status is None && row.error == Some(
                "worker has no backend client"@,
            ),
            Event::ClientFailed(e) => row.http_status is None && row.error == Some(e@),
            Event::BuildFailed(e) => row.http_status is None && row.error == Some(
                "failed to build prime request: "@ + e@,
            ),
            Event::Recorded => {
                &&& events.len() > 1
                &&& events[events.len() - 2] matches Event::GenerateFailed { failure, .. }
                &&& row.http_status == Some(failure.http_status)
                &&& row.error == Some("generate failed: "@ + failure.message@)
            },
            Event::StreamFailed(failure) => {
                &&& row.http_status == Some(failure.http_status)
                &&& row.error == Some("prime stream failed: "@ + failure.message@)
            },
            Event::MarkedCompleted => row.http_status == Some(200u16) && row.error is None,
            Event::DeadlineElapsed => row.http_status is None && row.error is Some,
            _ => false,
        },
{
    lemma_history(setup, events);
}

/// A prime puts at most one request on the wire: over HTTP one exactly where a body
/// could be made, over a token-only wire one exactly where the generate request came
/// to be finalized and, for a ranked worker, ranked. One that was answered was sent.
pub proof fn law_one_request<B, T, P>(setup: Setup<B, T>, events: Seq<Event<P>>)
    requires
        legal(setup, events),
    ensures
        requests_sent(setup, events) <= 1,
        requests_sent(setup, events) == 1 <==> request_ready(setup, events),
        answered(events) ==> requests_sent(setup, events) == 1,
{
    lemma_requests_sent(setup, events);
}

/// The request has all that it needs to go out.
pub open spec fn request_ready<B, T, P>(setup: Setup<B, T>, events: Seq<Event<P>>) -> bool {
    if over_http(setup) {
        events.len() > 0 && events[0] is BodyReady
    } else if setup.worker.dp_rank is None {
        events.len() > 2 && events[2] is RequestFinalized
    } else {
        events.len() > 3 && events[3] is RankSet
    }
}

/// The stages before the request goes out.
spec fn unsent(stage: Stage) -> bool {
    stage is Serializing || stage is Acquiring || stage is Building || stage is Finalizing
        || stage is Ranking
}

proof fn lemma_requests_sent<B, T, P>(setup: Setup<B, T>, events: Seq<Event<P>>)
    requires
        legal(setup, events),
    ensures
        requests_sent(setup, events) <= 1,
        unsent(run(setup, events).0) ==> requests_sent(setup, events) == 0 && !answered(events),
        !unsent(run(setup, events).0) && !(run(setup, events).0 is Finished) ==> requests_sent(
            setup,
            events,
        ) == 1,
        answered(events) ==> requests_sent(setup, events) == 1,
        requests_sent(setup, events) == 1 <==> request_ready(setup, events),
    decreases events.len(),
{
    lemma_history(setup, events);
    if events.len() > 0 {
        let before = events.drop_last();
        lemma_history(setup, before);
        lemma_requests_sent(setup, before);
        lemma_answered_step(events);
    }
}

proof fn lemma_answered_step<P>(events: Seq<Event<P>>)
    requires
        events.len() > 0,
    ensures
        answered(events) <==> answered(events.drop_last()) || answered_status(events.last())
            is Some,
        stream_ended(events) <==> stream_ended(events.drop_last()) || events.last() is StreamEnded,
{
    let before = events.drop_last();
    if answered(before) {
        let i = choose|i: int| 0 <= i < before.len() && answered_status(#[trigger] before[i]) is Some;
        assert(answered_status(events[i]) is Some);
    }
    if answered(events) {
        let i = choose|i: int| 0 <= i < events.len() && answered_status(#[trigger] events[i]) is Some;
        if i < before.len() {
            assert(answered_status(before[i]) is Some);
        }
    }
    if stream_ended(before) {
        let i = choose|i: int| 0 <= i < before.len() && (#[trigger] before[i]) is StreamEnded;
        assert(events[i] is StreamEnded);
    }
    if stream_ended(events) {
        let i = choose|i: int| 0 <= i < events.len() && (#[trigger] events[i]) is StreamEnded;
        if i < before.len() {
            assert(before[i] is StreamEnded);
        }
    }
    if answered_status(events.last()) is Some {
        assert(answered_status(events[events.len() - 1]) is Some);
    }
    if events.last() is StreamEnded {
        assert(events[events.len() - 1] is StreamEnded);
    }
}

/// The circuit breaker learns the status of an answer right after it came, and nothing
/// else. What it learns in all are the statuses of the answers, of which there is at
/// most one; over HTTP it is the status that the row reports.
pub proof fn law_every_answer_is_recorded<B, T, P>(setup: Setup<B, T>, events: Seq<Event<P>>)
    requires
        legal(setup, events),
    ensures
        run(setup, events).1 matches ActionView::RecordOutcome(status) ==> events.len() > 0
            && answered_status(events.last()) == Some(status),
        events.len() > 0 ==> (answered_status(events.last()) matches Some(status) ==> run(
            setup,
            events,
        ).1 == ActionView::<B, T, P>::RecordOutcome(status)),
        events.len() > 0 ==> match events.last() {
            Event::Replied(status) => run(setup, events).1
                == ActionView::<B, T, P>::RecordOutcome(status),
            Event::Generated { cb_status } => run(setup, events).1
                == ActionView::<B, T, P>::RecordOutcome(cb_status),
            Event::GenerateFailed { cb_status, .. } => run(setup, events).1
                == ActionView::<B, T, P>::RecordOutcome(cb_status),
            _ => !(run(setup, events).1 is RecordOutcome),
        },
        events.len() == 0 ==> !(run(setup, events).1 is RecordOutcome),
        recorded(setup, events) == answered_statuses(events),
        recorded(setup, events).len() <= 1,
        recorded(setup, events).len() == 1 <==> answered(events),
        over_http(setup) ==> (run(setup, events).1 matches ActionView::Finish(row) ==> (
        row.http_status is Some ==> recorded(setup, events) == seq![row.http_status->0])),
{
    lemma_recorded(setup, events);
    lemma_history(setup, events);
    if events.len() > 0 {
        lemma_history(setup, events.drop_last());
        lemma_recorded(setup, events.drop_last());
    }
}

/// The stages after the answer came.
spec fn past_answer(stage: Stage) -> bool {
    stage is RecordingReply || stage is Discarding || stage is RecordingGenerate || stage
        is Draining || stage is Completing
}

proof fn lemma_recorded<B, T, P>(setup: Setup<B, T>, events: Seq<Event<P>>)
    requires
        legal(setup, events),
    ensures
        recorded(setup, events) == answered_statuses(events),
        recorded(setup, events).len() <= 1,
        recorded(setup, events).len() == 1 <==> answered(events),
        past_answer(run(setup, events).0) ==> recorded(setup, events).len() == 1,
        !past_answer(run(setup, events).0) && !(run(setup, events).0 is Finished) ==> recorded(
            setup,
            events,
        ).len() == 0,
        run(setup, events).0 matches Stage::RecordingReply { status } ==> recorded(setup, events)
            == seq![status],
        run(setup, events).0 matches Stage::Discarding { status } ==> recorded(setup, events)
            == seq![status],
    decreases events.len(),
{
    lemma_history(setup, events);
    if events.len() > 0 {
        let before = events.drop_last();
        lemma_history(setup, before);
        lemma_recorded(setup, before);
        lemma_answered_step(events);
    }
}

/// A stream is marked completed when it has been read to its end, and only then. A
/// prime over a token-only wire that reports success has read its stream to the end and
/// had it marked once; one that reports anything else has done neither, and its stream
/// is left to be aborted.
pub proof fn law_only_a_drained_stream_is_marked<B, T, P>(setup: Setup<B, T>, events: Seq<Event<P>>)
    requires
        legal(setup, events),
    ensures
        run(setup, events).1 is MarkCompleted <==> events.len() > 0 && events.last() is StreamEnded,
        run(setup, events).1 matches ActionView::Finish(row) ==> (stream_ended(events) <==> (
        !over_http(setup) && row.error is None)),
        run(setup, events).1 matches ActionView::Finish(row) ==> marks(setup, events) == if !over_http(
            setup,
        ) && row.error is None {
            1nat
        } else {
            0nat
        },
{
    lemma_history(setup, events);
    lemma_stream_ended(setup, events);
    if events.len() > 0 {
        lemma_history(setup, events.drop_last());
    }
}

proof fn lemma_stream_ended<B, T, P>(setup: Setup<B, T>, events: Seq<Event<P>>)
    requires
        legal(setup, events),
    ensures
        stream_ended(events) <==> run(setup, events).0 is Completing || (events.len() > 0
            && events.last() is MarkedCompleted),
        marks(setup, events) == if stream_ended(events) {
            1nat
        } else {
            0nat
        },
    decreases events.len(),
{
    lemma_history(setup, events);
    if events.len() > 0 {
        let before = events.drop_last();
        lemma_history(setup, before);
        lemma_stream_ended(setup, before);
        lemma_answered_step(events);
        if final_answer(before) {
            lemma_final_answer(setup, before);
        }
    }
}

/// A row without an error carries a 2xx status, and its prime sent one request that
/// the worker answered.
pub proof fn law_success_is_2xx<B, T, P>(setup: Setup<B, T>, events: Seq<Event<P>>, row: OutcomeView)
    requires
        legal(setup, events),
        run(setup, events).1 == ActionView::<B, T, P>::Finish(row),
        row.error is None,
    ensures
        row.http_status is Some && success_status(row.http_status->0),
        200 <= row.http_status->0 <= 299,
        !over_http(setup) ==> row.http_status == Some(200u16),
        answered(events),
        requests_sent(setup, events) == 1,
{
    lemma_history(setup, events);
    lemma_success_answered(setup, events);
    law_one_request(setup, events);
}

proof fn lemma_success_answered<B, T, P>(setup: Setup<B, T>, events: Seq<Event<P>>)
    requires
        legal(setup, events),
    ensures
        past_answer(run(setup, events).0) ==> answered(events),
        events.len() > 0 && (events.last() is Discarded || events.last() is MarkedCompleted)
            ==> answered(events),
{
    lemma_recorded(setup, events);
    if events.len() > 0 {
        lemma_recorded(setup, events.drop_last());
        lemma_answered_step(events);
    }
}

/// Over HTTP a row carries an error exactly where its status is not 2xx. The engine's
/// status is reported as it came; it is null exactly where the engine gave no answer
/// or the deadline cut the answer off.
pub proof fn law_http_row<B, T, P>(setup: Setup<B, T>, events: Seq<Event<P>>, row: OutcomeView)
    requires
        legal(setup, events),
        over_http(setup),
        run(setup, events).1 == ActionView::<B, T, P>::Finish(row),
    ensures
        row.error is None <==> row.http_status is Some && success_status(row.http_status->0),
        row.error is None <==> row.http_status is Some && 200 <= row.http_status->0 <= 299,
        row.http_status is Some ==> (row.error matches Some(e) ==> e == "HTTP "@ + decimal(
            row.http_status->0 as nat,
        )),
        row.http_status is Some <==> answered(events) && !(events.last() is DeadlineElapsed),
        row.http_status is Some ==> events.len() == 4 && events[1] == Event::<P>::Replied(
            row.http_status->0,
        ),
{
    lemma_history(setup, events);
    lemma_success_answered(setup, events);
    let before = events.drop_last();
    lemma_history(setup, before);
    lemma_requests_sent(setup, before);
    lemma_answered_step(events);
}

/// Over a token-only wire the status is null exactly where the prime failed before
/// its generate call, or the deadline elapsed.
pub proof fn law_backend_row<B, T, P>(setup: Setup<B, T>, events: Seq<Event<P>>, row: OutcomeView)
    requires
        legal(setup, events),
        !over_http(setup),
        run(setup, events).1 == ActionView::<B, T, P>::Finish(row),
    ensures
        row.http_status is Some <==> answered(events) && !(events.last() is DeadlineElapsed),
        row.error is None <==> events.last() is MarkedCompleted,
{
    lemma_history(setup, events);
    lemma_success_answered(setup, events);
    let before = events.drop_last();
    lemma_history(setup, before);
    lemma_success_answered(setup, before);
    lemma_requests_sent(setup, before);
    lemma_answered_step(events);
}

/// Over either wire a row carries an error exactly where its status is not 2xx, as
/// long as no failed RPC carries a 2xx status.
pub proof fn law_error_iff_not_2xx<B, T, P>(setup: Setup<B, T>, events: Seq<Event<P>>, row: OutcomeView)
    requires
        legal(setup, events),
        run(setup, events).1 == ActionView::<B, T, P>::Finish(row),
        forall|i: int|
            0 <= i < events.len() && failure_status(#[trigger] events[i]) is Some
                ==> !success_status(failure_status(events[i])->0),
    ensures
        row.error is None <==> row.http_status is Some && success_status(row.http_status->0),
        row.error is None <==> row.http_status is Some && 200 <= row.http_status->0 <= 299,
{
    lemma_history(setup, events);
    let n = events.len() as int;
    assert(failure_status(events[n - 1]) is Some ==> !success_status(
        failure_status(events[n - 1])->0,
    ));
    assert(n > 1 && failure_status(events[n - 2]) is Some ==> !success_status(
        failure_status(events[n - 2])->0,
    ));
}

/// A deadline that elapses ends the prime then and there, with a null status and an
/// error. It is taken wherever the prime is suspended on the worker, so a hung worker
/// cannot hold it.
pub proof fn law_deadline_ends_the_prime<B, T, P>(setup: Setup<B, T>, events: Seq<Event<P>>)
    requires
        legal(setup, events),
        awaiting(run(setup, events).0),
    ensures
        legal(setup, events.push(Event::DeadlineElapsed)),
        run(setup, events.push(Event::DeadlineElapsed)) == (
            Stage::Finished,
            ActionView::<B, T, P>::Finish(timed_out_row(setup.req.timeout)),
        ),
        timed_out_row(setup.req.timeout).http_status is None,
        timed_out_row(setup.req.timeout).error is Some,
{
    assert(events.push(Event::DeadlineElapsed).drop_last() =~= events);
}

/// A prime whose stream stops giving items is soon over: besides those items it takes
/// at most eight answers.
pub proof fn law_bounded<B, T, P>(setup: Setup<B, T>, events: Seq<Event<P>>)
    requires
        legal(setup, events),
    ensures
        events.len() <= 8 + chunks(events),
        over_http(setup) ==> events.len() <= 4,
{
    lemma_history(setup, events);
    if events.len() > 0 {
        lemma_history(setup, events.drop_last());
    }
}

/// The two wires do not mix: a prime over HTTP asks for no backend action, and one
/// over a token-only wire for no HTTP action.
pub proof fn law_wires_do_not_mix<B, T, P>(setup: Setup<B, T>, events: Seq<Event<P>>)
    requires
        legal(setup, events),
    ensures
        over_http(setup) ==> match run(setup, events).1 {
            ActionView::SerializeBody { .. }
            | ActionView::SendHttp(_)
            | ActionView::RecordOutcome(_)
            | ActionView::DiscardBody
            | ActionView::Finish(_) => true,
            _ => false,
        },
        !over_http(setup) ==> match run(setup, events).1 {
            ActionView::SerializeBody { .. }
            | ActionView::SendHttp(_)
            | ActionView::DiscardBody => false,
            _ => true,
        },
{
    lemma_history(setup, events);
}

/// The worker is sent what the request and the serialized body say, with the worker's
/// own key, and nothing else.
pub proof fn law_http_sends_the_body<B, T, P>(setup: Setup<B, T>, events: Seq<Event<P>>)
    requires
        legal(setup, events),
    ensures
        run(setup, events).1 is SendHttp <==> events.len() == 1 && events[0] is BodyReady,
        run(setup, events).1 matches ActionView::SendHttp(request) ==> request
            == completion_request(setup.req, setup.worker, events[0]->BodyReady_0@),
        run(setup, events).1 matches ActionView::SendHttp(request) ==> {
            &&& request.method == "POST"@
            &&& request.route == "/v1/completions"@
            &&& request.header_name == "content-type"@
            &&& request.header_value == "application/json"@
            &&& request.timeout == setup.req.timeout
            &&& request.body == events[0]->BodyReady_0@
            &&& request.bearer == setup.worker.api_key
        },
{
    lemma_history(setup, events);
    if events.len() > 0 {
        lemma_history(setup, events.drop_last());
    }
}

/// Every target primes the identical prefix: whatever the two workers, their generate
/// requests are built from the same body, prompt and tokens. The two identifiers are
/// equal exactly where the two UUIDs drawn for them are.
pub proof fn law_every_target_gets_the_same_prefix<B, T, P>(
    setup: Setup<B, T>,
    events: Seq<Event<P>>,
    other: Setup<B, T>,
    other_events: Seq<Event<P>>,
)
    requires
        legal(setup, events),
        legal(other, other_events),
        other.req == setup.req,
        run(setup, events).1 is BuildRequest,
        run(other, other_events).1 is BuildRequest,
    ensures
        run(setup, events).1 == (ActionView::<B, T, P>::BuildRequest {
            request_id: request_id(setup.uuid),
            body: setup.req.body,
            prompt: setup.req.prompt,
            token_ids: setup.req.token_ids,
        }),
        run(other, other_events).1 == (ActionView::<B, T, P>::BuildRequest {
            request_id: request_id(other.uuid),
            body: setup.req.body,
            prompt: setup.req.prompt,
            token_ids: setup.req.token_ids,
        }),
        request_id(setup.uuid) == request_id(other.uuid) <==> setup.uuid == other.uuid,
        run(setup, events).1->BuildRequest_request_id == "prime-"@ + setup.uuid,
        run(other, other_events).1->BuildRequest_request_id == "prime-"@ + other.uuid,
{
    lemma_history(setup, events);
    lemma_history(other, other_events);
    if request_id(setup.uuid) == request_id(other.uuid) {
        let n = "prime-"@.len() as int;
        assert(setup.uuid =~= request_id(setup.uuid).skip(n));
        assert(other.uuid =~= request_id(other.uuid).skip(n));
    }
}

/// A generate request is finalized at most once, right after it was built and with the
/// request's own tokenizer, and a generate call is made only after that.
pub proof fn law_finalized_before_generate<B, T, P>(setup: Setup<B, T>, events: Seq<Event<P>>)
    requires
        legal(setup, events),
    ensures
        run(setup, events).1 is FinalizeRequest <==> events.len() > 0 && events.last()
            is RequestBuilt,
        run(setup, events).1 matches ActionView::FinalizeRequest { tokenizer, .. } ==> tokenizer
            == setup.req.tokenizer,
        generate_calls(setup, events) <= finalizations(setup, events) <= 1,
        run(setup, events).1 is Generate ==> finalizations(setup, events) == 1,
{
    lemma_finalizations(setup, events);
    lemma_history(setup, events);
    if events.len() > 0 {
        lemma_history(setup, events.drop_last());
    }
}

proof fn lemma_finalizations<B, T, P>(setup: Setup<B, T>, events: Seq<Event<P>>)
    requires
        legal(setup, events),
    ensures
        generate_calls(setup, events) <= finalizations(setup, events) <= 1,
        !over_http(setup) && !(run(setup, events).0 is Finished) ==> finalizations(setup, events)
            == if events.len() >= 2 {
            1nat
        } else {
            0nat
        },
        unsent(run(setup, events).0) ==> generate_calls(setup, events) == 0,
        over_http(setup) ==> finalizations(setup, events) == 0,
    decreases events.len(),
{
    lemma_history(setup, events);
    if events.len() > 0 {
        lemma_history(setup, events.drop_last());
        lemma_finalizations(setup, events.drop_last());
    }
}

/// One generate request goes all the way: the request that was built is finalized, what
/// finalizing left is ranked where the worker has a rank, and what came of that, as it
/// is, goes into the generate call.
pub proof fn law_generate_gets_the_finished_request<B, T, P>(
    setup: Setup<B, T>,
    events: Seq<Event<P>>,
)
    requires
        legal(setup, events),
    ensures
        run(setup, events).1 matches ActionView::FinalizeRequest { request, .. } ==> events.len()
            == 2 && events[1] == Event::RequestBuilt(request),
        run(setup, events).1 matches ActionView::SetRank { request, .. } ==> events.len() == 3
            && events[2] == Event::RequestFinalized(request),
        run(setup, events).1 matches ActionView::Generate(request) ==> if setup.worker.dp_rank
            is Some {
            events.len() == 4 && events[3] == Event::RankSet(request)
        } else {
            events.len() == 3 && events[2] == Event::RequestFinalized(request)
        },
        events.len() > 0 ==> (events.last() matches Event::RequestBuilt(built) ==> run(
            setup,
            events,
        ).1 == (ActionView::<B, T, P>::FinalizeRequest {
            request: built,
            tokenizer: setup.req.tokenizer,
        })),
        events.len() > 0 ==> (events.last() matches Event::RequestFinalized(finalized) ==> run(
            setup,
            events,
        ).1 == match setup.worker.dp_rank {
            Some(rank) => ActionView::<B, T, P>::SetRank {
                request: finalized,
                rank: low_i32(rank as nat) as i32,
            },
            None => ActionView::<B, T, P>::Generate(finalized),
        }),
        events.len() > 0 ==> (events.last() matches Event::RankSet(ranked) ==> run(setup, events).1
            == ActionView::<B, T, P>::Generate(ranked)),
{
    lemma_history(setup, events);
    if events.len() > 0 {
        lemma_history(setup, events.drop_last());
    }
}

/// The actions of a prime over HTTP come in one order: make the body, send it, record
/// the status, read the answer to its end, report.
pub proof fn law_http_order<B, T, P>(setup: Setup<B, T>, events: Seq<Event<P>>)
    requires
        legal(setup, events),
        over_http(setup),
        !(run(setup, events).1 is Finish),
    ensures
        events.len() <= 3,
        events.len() == 0 ==> run(setup, events).1 == (ActionView::<B, T, P>::SerializeBody {
            body: setup.req.body,
            canonical_model: setup.req.canonical_model,
        }),
        events.len() == 1 ==> run(setup, events).1 is SendHttp,
        events.len() == 2 ==> run(setup, events).1 is RecordOutcome,
        events.len() == 3 ==> run(setup, events).1 is DiscardBody,
{
    lemma_history(setup, events);
}

/// The actions of a prime over a token-only wire come in one order: acquire a client,
/// build the generate request, finalize it, set the rank of a ranked worker, generate,
/// record the result, then read items until the stream ends, mark it completed, report.
pub proof fn law_backend_order<B, T, P>(setup: Setup<B, T>, events: Seq<Event<P>>)
    requires
        legal(setup, events),
        !over_http(setup),
        !(run(setup, events).1 is Finish),
    ensures
        ({
            let n = events.len() as int;
            let r: int = if setup.worker.dp_rank is Some {
                1
            } else {
                0
            };
            let action = run(setup, events).1;
            &&& n == 0 ==> action is AcquireClient
            &&& n == 1 ==> action is BuildRequest
            &&& n == 2 ==> action is FinalizeRequest
            &&& n == 3 && r == 1 ==> action is SetRank
            &&& n == 3 + r ==> action is Generate
            &&& n == 4 + r ==> action is RecordOutcome
            &&& n >= 5 + r ==> if events.last() is StreamEnded {
                action is MarkCompleted
            } else {
                action is NextItem
            }
        }),
{
    lemma_history(setup, events);
    if events.len() > 0 {
        lemma_history(setup, events.drop_last());
    }
}

/// A generate call of a ranked worker goes out only after that worker's rank was set
/// on its request, and no rank is ever set for another.
pub proof fn law_rank_is_set_before_generate<B, T, P>(setup: Setup<B, T>, events: Seq<Event<P>>)
    requires
        legal(setup, events),
    ensures
        run(setup, events).1 matches ActionView::SetRank { rank, .. } ==> setup.worker.dp_rank is Some
            && rank == low_i32(setup.worker.dp_rank->0 as nat),
        run(setup, events).1 matches ActionView::SetRank { rank, .. } ==> (
        setup.worker.dp_rank->0 <= 0x7fff_ffff ==> rank == setup.worker.dp_rank->0),
        run(setup, events).1 matches ActionView::SetRank { rank, .. } ==> (setup.worker.dp_rank->0
            - rank) % 0x1_0000_0000 == 0,
        run(setup, events).1 is Generate && setup.worker.dp_rank is Some ==> run(
            setup,
            events.drop_last(),
        ).1 is SetRank,
{
    lemma_history(setup, events);
    if events.len() > 0 {
        lemma_history(setup, events.drop_last());
    }
}

/// gRPC and ZMQ workers are primed alike: ZMQ is not turned away.
pub proof fn law_grpc_and_zmq_alike<B, T, P>(
    setup: Setup<B, T>,
    other: Setup<B, T>,
    events: Seq<Event<P>>,
)
    requires
        setup.worker.connection_mode is Grpc,
        other == (Setup {
            worker: WorkerView { connection_mode: ConnectionMode::Zmq, ..setup.worker },
            ..setup
        }),
    ensures
        run(other, events) == run(setup, events),
        legal(other, events) == legal(setup, events),
    decreases events.len(),
{
    if events.len() > 0 {
        law_grpc_and_zmq_alike(setup, other, events.drop_last());
    }
}

/// Over HTTP the prompt, the tokens, the tokenizer and the rank play no part: engines
/// tokenize for themselves, and the body already names the rank.
pub proof fn law_http_ignores_tokens<B, T, P>(
    setup: Setup<B, T>,
    other: Setup<B, T>,
    events: Seq<Event<P>>,
)
    requires
        over_http(setup),
        legal(setup, events),
        other.worker.connection_mode == setup.worker.connection_mode,
        other.worker.api_key == setup.worker.api_key,
        other.req.body == setup.req.body,
        other.req.canonical_model == setup.req.canonical_model,
        other.req.timeout == setup.req.timeout,
    ensures
        run(other, events) == run(setup, events),
        legal(other, events),
    decreases events.len(),
{
    if events.len() > 0 {
        lemma_history(setup, events.drop_last());
        law_http_ignores_tokens(setup, other, events.drop_last());
    }
}

} // verus!
