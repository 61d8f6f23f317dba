//! A prime over HTTP. HTTP engines tokenize the raw prompt themselves, so the
//! request's tokens are unused on this path.

use vstd::pervasive::unreached;
use vstd::prelude::*;

use crate::outcome::{failed_row, is_success, ok_row, success_status, OutcomeView, PrimeOutcome};
use crate::protocol::{
    expects, http_stage, Action, ActionView, BodyError, Event, HttpRequest, HttpRequestView, Stage,
};
use crate::request::{PrimeRequest, RequestView, WorkerInfo, WorkerView};
use crate::text::{decimal, decimal_text, join};

verus! {

/// The engine route a prime is sent to: the same one the HTTP proxy uses for
/// normal completions serving.
pub const COMPLETIONS_ROUTE: &'static str = "/v1/completions";

/// The name of the header `http::header::CONTENT_TYPE`, as `HeaderName::as_str`
/// gives it. Claims that it is the lower-case `content-type`.
#[verifier::external_body]
fn content_type_name() -> (name: String)
    ensures
        name@ == "content-type"@,
{
    http::header::CONTENT_TYPE.as_str().to_owned()
}

/// The HTTP request that carries `body` to the worker.
pub open spec fn completion_request<B, T>(
    req: RequestView<B, T>,
    worker: WorkerView,
    body: Seq<u8>,
) -> HttpRequestView {
    HttpRequestView {
        method: "POST"@,
        route: "/v1/completions"@,
        header_name: "content-type"@,
        header_value: "application/json"@,
        timeout: req.timeout,
        body,
        bearer: worker.api_key,
    }
}

/// Why no outbound body could be made, in words.
pub open spec fn body_error_message(error: BodyError) -> Seq<char> {
    match error {
        BodyError::Serialize(e) => "failed to serialize prime body: "@ + e@,
        BodyError::Prepare(e) => "failed to prepare prime body: "@ + e@,
    }
}

/// The row of a prime that the engine answered with `status`: a success where the
/// status is 2xx, else a failure that reports the status.
pub open spec fn http_row(status: u16) -> OutcomeView {
    if success_status(status) {
        ok_row(status)
    } else {
        failed_row(Some(status), "HTTP "@ + decimal(status as nat))
    }
}

/// Where a prime over HTTP goes from `stage` on `event`, and what it asks for next:
/// make the body, send it, record the engine's status, read its answer to the end,
/// report. A failure on the way ends it.
pub open spec fn http_next<B, T, P>(
    req: RequestView<B, T>,
    worker: WorkerView,
    stage: Stage,
    event: Event<P>,
) -> (Stage, ActionView<B, T, P>) {
    match event {
        Event::BodyReady(body) => (
            Stage::Sending,
            ActionView::SendHttp(completion_request(req, worker, body@)),
        ),
        Event::BodyFailed(error) => (
            Stage::Finished,
            ActionView::Finish(failed_row(None, body_error_message(error))),
        ),
        Event::Replied(status) => (
            Stage::RecordingReply { status },
            ActionView::RecordOutcome(status),
        ),
        Event::SendFailed(e) => (Stage::Finished, ActionView::Finish(failed_row(None, e@))),
        Event::Recorded => (
            Stage::Discarding { status: stage->RecordingReply_status },
            ActionView::DiscardBody,
        ),
        Event::Discarded => (
            Stage::Finished,
            ActionView::Finish(http_row(stage->Discarding_status)),
        ),
        _ => arbitrary(),
    }
}

/// The row of a prime that the engine answered with `status`.
pub fn http_outcome(status: u16) -> (outcome: PrimeOutcome)
    ensures
        outcome@ == http_row(status),
        outcome.http_status == Some(status),
        outcome.error is None <==> 200 <= status <= 299,
        outcome.error matches Some(e) ==> e@ == "HTTP "@ + decimal(status as nat),
{
    if is_success(status) {
        PrimeOutcome::ok(status)
    } else {
        let digits = decimal_text(status);
        PrimeOutcome::failed(Some(status), join("HTTP ", digits.as_str()))
    }
}

/// One step of a prime over HTTP.
pub fn prime_http<'a, B, T, P>(
    worker: &WorkerInfo,
    req: &PrimeRequest<'a, B, T>,
    stage: Stage,
    event: Event<P>,
) -> (next: (Stage, Action<'a, B, T, P>))
    requires
        http_stage(stage),
        expects(stage, event),
        !(event is DeadlineElapsed),
    ensures
        (next.0, next.1@) == http_next(req@, worker@, stage, event),
{
    match event {
        Event::BodyReady(body) => {
            let bearer = match &worker.api_key {
                Some(key) => Some(key.clone()),
                None => None,
            };
            let request = HttpRequest {
                method: "POST".to_owned(),
                route: COMPLETIONS_ROUTE.to_owned(),
                header_name: content_type_name(),
                header_value: "application/json".to_owned(),
                timeout: req.timeout,
                body,
                bearer,
            };
            (Stage::Sending, Action::SendHttp(request))
        },
        Event::BodyFailed(BodyError::Serialize(e)) => {
            let message = join("failed to serialize prime body: ", e.as_str());
            (Stage::Finished, Action::Finish(PrimeOutcome::failed(None, message)))
        },
        Event::BodyFailed(BodyError::Prepare(e)) => {
            let message = join("failed to prepare prime body: ", e.as_str());
            (Stage::Finished, Action::Finish(PrimeOutcome::failed(None, message)))
        },
        Event::Replied(status) => (
            Stage::RecordingReply { status },
            Action::RecordOutcome(status),
        ),
        Event::SendFailed(e) => (Stage::Finished, Action::Finish(PrimeOutcome::failed(None, e))),
        _ => match stage {
            Stage::RecordingReply { status } => (Stage::Discarding { status }, Action::DiscardBody),
            Stage::Discarding { status } => (Stage::Finished, Action::Finish(http_outcome(status))),
            _ => unreached(),
        },
    }
}

} // verus!
