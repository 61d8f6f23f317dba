//! A prime over a token-only wire: gRPC (any engine) and direct ZMQ, both behind a
//! backend client.

use vstd::pervasive::unreached;
use vstd::prelude::*;
use vstd::slice::slice_to_vec;

use crate::outcome::{failed_row, ok_row, PrimeOutcome};
use crate::protocol::{backend_stage, expects, Action, ActionView, Event, Stage};
use crate::request::{low_i32, wire_rank, PrimeRequest, RequestView, WorkerInfo, WorkerView};
use crate::request_id::{draw_uuid, drawn, prime_request_id, request_id, uuid_v7_text};
use crate::text::join;

verus! {

/// Whether the step on `event` draws the UUID that names the generate request.
pub open spec fn draws_uuid<P>(event: Event<P>) -> bool {
    event is ClientReady
}

/// Where a prime over a token-only wire goes from `stage` on `event`, and what it
/// asks for next: acquire a client, build the generate request, finalize it, set the
/// rank where the worker has one, generate, record the result, drain the stream to
/// its end, mark it completed, report 200. A failure on the way ends it.
///
/// `uuid` is what a step that draws a UUID draws.
pub open spec fn backend_next<B, T, P>(
    req: RequestView<B, T>,
    worker: WorkerView,
    uuid: Seq<char>,
    stage: Stage,
    event: Event<P>,
) -> (Stage, ActionView<B, T, P>) {
    match event {
        Event::ClientReady => (
            Stage::Building,
            ActionView::BuildRequest {
                request_id: request_id(uuid),
                body: req.body,
                prompt: req.prompt,
                token_ids: req.token_ids,
            },
        ),
        Event::ClientMissing => (
            Stage::Finished,
            ActionView::Finish(failed_row(None, "worker has no backend client"@)),
        ),
        Event::ClientFailed(e) => (Stage::Finished, ActionView::Finish(failed_row(None, e@))),
        Event::RequestBuilt(request) => (
            Stage::Finalizing,
            ActionView::FinalizeRequest { request, tokenizer: req.tokenizer },
        ),
        Event::BuildFailed(e) => (
            Stage::Finished,
            ActionView::Finish(failed_row(None, "failed to build prime request: "@ + e@)),
        ),
        Event::RequestFinalized(request) => match worker.dp_rank {
            Some(rank) => (
                Stage::Ranking,
                ActionView::SetRank { request, rank: low_i32(rank as nat) as i32 },
            ),
            None => (Stage::Generating, ActionView::Generate(request)),
        },
        Event::RankSet(request) => (Stage::Generating, ActionView::Generate(request)),
        Event::Generated { cb_status } => (
            Stage::RecordingGenerate { failure: None },
            ActionView::RecordOutcome(cb_status),
        ),
        Event::GenerateFailed { cb_status, failure } => (
            Stage::RecordingGenerate { failure: Some(failure) },
            ActionView::RecordOutcome(cb_status),
        ),
        Event::Recorded => match stage->RecordingGenerate_failure {
            Some(failure) => (
                Stage::Finished,
                ActionView::Finish(
                    failed_row(
                        Some(failure.http_status),
                        "generate failed: "@ + failure.message@,
                    ),
                ),
            ),
            None => (Stage::Draining, ActionView::NextItem),
        },
        Event::Chunk => (Stage::Draining, ActionView::NextItem),
        Event::StreamFailed(failure) => (
            Stage::Finished,
            ActionView::Finish(
                failed_row(
                    Some(failure.http_status),
                    "prime stream failed: "@ + failure.message@,
                ),
            ),
        ),
        Event::StreamEnded => (Stage::Completing, ActionView::MarkCompleted),
        Event::MarkedCompleted => (Stage::Finished, ActionView::Finish(ok_row(200))),
        _ => arbitrary(),
    }
}

/// One step of a prime over a token-only wire, which names the generate request by
/// `uuid` if this is the step that builds it.
pub fn backend_step<'a, B, T, P>(
    worker: &WorkerInfo,
    req: &PrimeRequest<'a, B, T>,
    uuid: &str,
    stage: Stage,
    event: Event<P>,
) -> (next: (Stage, Action<'a, B, T, P>))
    requires
        backend_stage(stage),
        expects(stage, event),
        !(event is DeadlineElapsed),
    ensures
        (next.0, next.1@) == backend_next(req@, worker@, uuid@, stage, event),
{
    match event {
        Event::ClientReady => (
            Stage::Building,
            Action::BuildRequest {
                request_id: prime_request_id(uuid),
                body: req.body,
                prompt: req.prompt.to_owned(),
                token_ids: slice_to_vec(req.token_ids),
            },
        ),
        Event::ClientMissing => {
            let message = "worker has no backend client".to_owned();
            (Stage::Finished, Action::Finish(PrimeOutcome::failed(None, message)))
        },
        Event::ClientFailed(e) => (Stage::Finished, Action::Finish(PrimeOutcome::failed(None, e))),
        Event::RequestBuilt(request) => (
            Stage::Finalizing,
            Action::FinalizeRequest { request, tokenizer: req.tokenizer },
        ),
        Event::BuildFailed(e) => {
            let message = join("failed to build prime request: ", e.as_str());
            (Stage::Finished, Action::Finish(PrimeOutcome::failed(None, message)))
        },
        Event::RequestFinalized(request) => match worker.dp_rank {
            Some(rank) => (
                Stage::Ranking,
                Action::SetRank { request, rank: wire_rank(rank) },
            ),
            None => (Stage::Generating, Action::Generate(request)),
        },
        Event::RankSet(request) => (Stage::Generating, Action::Generate(request)),
        Event::Generated { cb_status } => (
            Stage::RecordingGenerate { failure: None },
            Action::RecordOutcome(cb_status),
        ),
        Event::GenerateFailed { cb_status, failure } => (
            Stage::RecordingGenerate { failure: Some(failure) },
            Action::RecordOutcome(cb_status),
        ),
        Event::Recorded => match stage {
            Stage::RecordingGenerate { failure: Some(failure) } => {
                let message = join("generate failed: ", failure.message.as_str());
                let outcome = PrimeOutcome::failed(Some(failure.http_status), message);
                (Stage::Finished, Action::Finish(outcome))
            },
            _ => (Stage::Draining, Action::NextItem),
        },
        Event::Chunk => (Stage::Draining, Action::NextItem),
        Event::StreamFailed(failure) => {
            let message = join("prime stream failed: ", failure.message.as_str());
            let outcome = PrimeOutcome::failed(Some(failure.http_status), message);
            (Stage::Finished, Action::Finish(outcome))
        },
        Event::StreamEnded => (Stage::Completing, Action::MarkCompleted),
        Event::MarkedCompleted => (Stage::Finished, Action::Finish(PrimeOutcome::ok(200))),
        _ => unreached(),
    }
}

/// One step of a prime over a token-only wire. The step that builds the generate
/// request names it by a fresh UUID.
pub fn prime_backend<'a, B, T, P>(
    worker: &WorkerInfo,
    req: &PrimeRequest<'a, B, T>,
    stage: Stage,
    event: Event<P>,
) -> (next: (Stage, Action<'a, B, T, P>))
    requires
        backend_stage(stage),
        expects(stage, event),
        !(event is DeadlineElapsed),
    ensures
        !draws_uuid(event) ==> forall|uuid: Seq<char>| (next.0, next.1@) == #[trigger] backend_next(
            req@,
            worker@,
            uuid,
            stage,
            event,
        ),
        draws_uuid(event) ==> exists|uuid: Seq<char>| #[trigger]
            uuid_v7_text(uuid) && drawn(uuid) && (next.0, next.1@) == backend_next(
                req@,
                worker@,
                uuid,
                stage,
                event,
            ),
{
    let uuid = match &event {
        Event::ClientReady => draw_uuid(),
        _ => String::new(),
    };
    backend_step(worker, req, uuid.as_str(), stage, event)
}

} // verus!
