//! What each step of a prime gives, on the values that go into the step and come out of
//! it.

use vstd::prelude::*;

use crate::backend::backend_step;
use crate::prime::{prime_next, prime_once, prime_worker};
use crate::protocol::{Action, BodyError, Event, RpcFailure, Stage};
use crate::request::{ConnectionMode, PrimeRequest, WorkerInfo};
use crate::request_id::{drawn, uuid_v7_text};
use crate::text::decimal;
use crate::timeout::duration_debug;

verus! {

proof fn lemma_step<'a, B, T, P>(
    worker: &WorkerInfo,
    req: &PrimeRequest<'a, B, T>,
    stage: Stage,
    event: Event<P>,
    next: (Stage, Action<'a, B, T, P>),
)
    requires
        call_ensures(prime_worker::<B, T, P>, (worker, req, stage, event), next),
        !(event is ClientReady),
    ensures
        (next.0, next.1@) == prime_next(req@, worker@, Seq::empty(), stage, event),
{
    assert((next.0, next.1@) == prime_next(req@, worker@, Seq::empty(), stage, event));
}

/// A prime starts on the wire that the worker speaks. Over HTTP it asks first for the
/// body, from the request's own serving body and canonical model; over gRPC and ZMQ it
/// asks first for a client.
pub proof fn law_start<'a, B, T, P>(
    worker: &WorkerInfo,
    req: &PrimeRequest<'a, B, T>,
    first: (Stage, Action<'a, B, T, P>),
)
    requires
        call_ensures(prime_once::<B, T, P>, (worker, req), first),
    ensures
        worker.connection_mode == ConnectionMode::Http ==> {
            &&& first.0 is Serializing
            &&& first.1 is SerializeBody
            &&& *first.1->SerializeBody_body == *req.body
            &&& first.1->SerializeBody_canonical_model is Some <==> req.canonical_model is Some
            &&& req.canonical_model is Some ==> first.1->SerializeBody_canonical_model->0@
                == req.canonical_model->0@
        },
        worker.connection_mode != ConnectionMode::Http ==> first.0 is Acquiring && first.1
            is AcquireClient,
{
}

/// The request that goes out over HTTP is a POST of the serialized body, as it is, to the
/// completions route, as JSON, under the timeout of the prime, with the worker's key as
/// bearer token exactly where the worker has one.
pub proof fn law_http_request<'a, B, T, P>(
    worker: &WorkerInfo,
    req: &PrimeRequest<'a, B, T>,
    body: Vec<u8>,
    next: (Stage, Action<'a, B, T, P>),
)
    requires
        call_ensures(
            prime_worker::<B, T, P>,
            (worker, req, Stage::Serializing, Event::<P>::BodyReady(body)),
            next,
        ),
    ensures
        next.0 is Sending,
        next.1 is SendHttp,
        next.1->SendHttp_0.method@ == "POST"@,
        next.1->SendHttp_0.route@ == "/v1/completions"@,
        next.1->SendHttp_0.header_name@ == "content-type"@,
        next.1->SendHttp_0.header_value@ == "application/json"@,
        next.1->SendHttp_0.timeout@ == req.timeout@,
        next.1->SendHttp_0.body@ == body@,
        next.1->SendHttp_0.bearer is Some <==> worker.api_key is Some,
        worker.api_key is Some ==> next.1->SendHttp_0.bearer->0@ == worker.api_key->0@,
{
    lemma_step(worker, req, Stage::Serializing, Event::<P>::BodyReady(body), next);
}

/// A body that could not be made ends the prime with a null status, and the error says
/// which of the two ways it failed and why.
pub proof fn law_http_body_failure<'a, B, T, P>(
    worker: &WorkerInfo,
    req: &PrimeRequest<'a, B, T>,
    error: BodyError,
    next: (Stage, Action<'a, B, T, P>),
)
    requires
        call_ensures(
            prime_worker::<B, T, P>,
            (worker, req, Stage::Serializing, Event::<P>::BodyFailed(error)),
            next,
        ),
    ensures
        next.0 is Finished,
        next.1 is Finish,
        next.1->Finish_0.http_status == None::<u16>,
        next.1->Finish_0.error is Some,
        error matches BodyError::Serialize(e) ==> next.1->Finish_0.error->0@
            == "failed to serialize prime body: "@ + e@,
        error matches BodyError::Prepare(e) ==> next.1->Finish_0.error->0@
            == "failed to prepare prime body: "@ + e@,
{
    lemma_step(worker, req, Stage::Serializing, Event::<P>::BodyFailed(error), next);
}

/// A send that got no response ends the prime with a null status and the client's own
/// error.
pub proof fn law_http_send_failure<'a, B, T, P>(
    worker: &WorkerInfo,
    req: &PrimeRequest<'a, B, T>,
    e: String,
    next: (Stage, Action<'a, B, T, P>),
)
    requires
        call_ensures(
            prime_worker::<B, T, P>,
            (worker, req, Stage::Sending, Event::<P>::SendFailed(e)),
            next,
        ),
    ensures
        next.0 is Finished,
        next.1 is Finish,
        next.1->Finish_0.http_status == None::<u16>,
        next.1->Finish_0.error is Some,
        next.1->Finish_0.error->0@ == e@,
{
    lemma_step(worker, req, Stage::Sending, Event::<P>::SendFailed(e), next);
}

/// The status that an engine answers is recorded, the rest of the answer is read, and the
/// row reports that very status: without an error from 200 to 299, else with the status
/// as its error.
pub proof fn law_http_reply<'a, B, T, P>(
    worker: &WorkerInfo,
    req: &PrimeRequest<'a, B, T>,
    status: u16,
    recording: (Stage, Action<'a, B, T, P>),
    discarding: (Stage, Action<'a, B, T, P>),
    last: (Stage, Action<'a, B, T, P>),
)
    requires
        call_ensures(
            prime_worker::<B, T, P>,
            (worker, req, Stage::Sending, Event::<P>::Replied(status)),
            recording,
        ),
        call_ensures(
            prime_worker::<B, T, P>,
            (worker, req, recording.0, Event::<P>::Recorded),
            discarding,
        ),
        call_ensures(
            prime_worker::<B, T, P>,
            (worker, req, discarding.0, Event::<P>::Discarded),
            last,
        ),
    ensures
        recording.1 == Action::<'a, B, T, P>::RecordOutcome(status),
        discarding.1 is DiscardBody,
        last.0 is Finished,
        last.1 is Finish,
        last.1->Finish_0.http_status == Some(status),
        last.1->Finish_0.error is None <==> 200 <= status <= 299,
        last.1->Finish_0.error is Some ==> last.1->Finish_0.error->0@ == "HTTP "@ + decimal(
            status as nat,
        ),
{
    lemma_step(worker, req, Stage::Sending, Event::<P>::Replied(status), recording);
    lemma_step(worker, req, recording.0, Event::<P>::Recorded, discarding);
    lemma_step(worker, req, discarding.0, Event::<P>::Discarded, last);
}

/// A client that is ready gets a generate request that is built from the request's own
/// body, prompt and tokens, under `prime-` and a version 7 UUID drawn for it.
pub proof fn law_build_request<'a, B, T, P>(
    worker: &WorkerInfo,
    req: &PrimeRequest<'a, B, T>,
    next: (Stage, Action<'a, B, T, P>),
)
    requires
        call_ensures(
            prime_worker::<B, T, P>,
            (worker, req, Stage::Acquiring, Event::<P>::ClientReady),
            next,
        ),
    ensures
        next.0 is Building,
        next.1 is BuildRequest,
        *next.1->BuildRequest_body == *req.body,
        next.1->BuildRequest_prompt@ == req.prompt@,
        next.1->BuildRequest_token_ids@ == req.token_ids@,
        exists|uuid: Seq<char>| #[trigger]
            drawn(uuid) && next.1->BuildRequest_request_id@ == "prime-"@ + uuid,
        next.1->BuildRequest_request_id@.len() == 42,
        forall|i: int|
            6 <= i < 42 ==> if i == 14 || i == 19 || i == 24 || i == 29 {
                #[trigger] next.1->BuildRequest_request_id@[i] == '-'
            } else {
                '0' <= next.1->BuildRequest_request_id@[i] <= '9' || 'a'
                    <= next.1->BuildRequest_request_id@[i] <= 'f'
            },
        next.1->BuildRequest_request_id@[20] == '7',
        next.1->BuildRequest_request_id@[25] == '8' || next.1->BuildRequest_request_id@[25] == '9'
            || next.1->BuildRequest_request_id@[25] == 'a'
            || next.1->BuildRequest_request_id@[25] == 'b',
{
    let uuid = choose|uuid: Seq<char>| #[trigger]
        uuid_v7_text(uuid) && drawn(uuid) && (next.0, next.1@) == prime_next(
            req@,
            worker@,
            uuid,
            Stage::Acquiring,
            Event::<P>::ClientReady,
        );
    let id = next.1->BuildRequest_request_id@;
    reveal_strlit("prime-");
    assert(drawn(uuid) && id == "prime-"@ + uuid);
    assert forall|i: int| 6 <= i < 42 implies #[trigger] id[i] == uuid[i - 6] by {}
}

/// The generate request that a step builds is named by the UUID that the step was given.
pub proof fn law_request_id<'a, B, T, P>(
    worker: &WorkerInfo,
    req: &PrimeRequest<'a, B, T>,
    uuid: &str,
    next: (Stage, Action<'a, B, T, P>),
)
    requires
        call_ensures(
            backend_step::<B, T, P>,
            (worker, req, uuid, Stage::Acquiring, Event::<P>::ClientReady),
            next,
        ),
    ensures
        next.1 is BuildRequest,
        next.1->BuildRequest_request_id@ == "prime-"@ + uuid@,
{
}

/// A worker without a backend client ends the prime with a null status.
pub proof fn law_client_missing<'a, B, T, P>(
    worker: &WorkerInfo,
    req: &PrimeRequest<'a, B, T>,
    next: (Stage, Action<'a, B, T, P>),
)
    requires
        call_ensures(
            prime_worker::<B, T, P>,
            (worker, req, Stage::Acquiring, Event::<P>::ClientMissing),
            next,
        ),
    ensures
        next.0 is Finished,
        next.1 is Finish,
        next.1->Finish_0.http_status == None::<u16>,
        next.1->Finish_0.error is Some,
        next.1->Finish_0.error->0@ == "worker has no backend client"@,
{
    lemma_step(worker, req, Stage::Acquiring, Event::<P>::ClientMissing, next);
}

/// A client that could not be acquired ends the prime with a null status and the reason.
pub proof fn law_client_failure<'a, B, T, P>(
    worker: &WorkerInfo,
    req: &PrimeRequest<'a, B, T>,
    e: String,
    next: (Stage, Action<'a, B, T, P>),
)
    requires
        call_ensures(
            prime_worker::<B, T, P>,
            (worker, req, Stage::Acquiring, Event::<P>::ClientFailed(e)),
            next,
        ),
    ensures
        next.0 is Finished,
        next.1 is Finish,
        next.1->Finish_0.http_status == None::<u16>,
        next.1->Finish_0.error is Some,
        next.1->Finish_0.error->0@ == e@,
{
    lemma_step(worker, req, Stage::Acquiring, Event::<P>::ClientFailed(e), next);
}

/// A generate request that could not be built ends the prime with a null status and the
/// reason.
pub proof fn law_build_failure<'a, B, T, P>(
    worker: &WorkerInfo,
    req: &PrimeRequest<'a, B, T>,
    e: String,
    next: (Stage, Action<'a, B, T, P>),
)
    requires
        call_ensures(
            prime_worker::<B, T, P>,
            (worker, req, Stage::Building, Event::<P>::BuildFailed(e)),
            next,
        ),
    ensures
        next.0 is Finished,
        next.1 is Finish,
        next.1->Finish_0.http_status == None::<u16>,
        next.1->Finish_0.error is Some,
        next.1->Finish_0.error->0@ == "failed to build prime request: "@ + e@,
{
    lemma_step(worker, req, Stage::Building, Event::<P>::BuildFailed(e), next);
}

/// The generate request that was built is finalized with the request's own tokenizer, or
/// with none where there is none.
pub proof fn law_finalize<'a, B, T, P>(
    worker: &WorkerInfo,
    req: &PrimeRequest<'a, B, T>,
    request: P,
    next: (Stage, Action<'a, B, T, P>),
)
    requires
        call_ensures(
            prime_worker::<B, T, P>,
            (worker, req, Stage::Building, Event::<P>::RequestBuilt(request)),
            next,
        ),
    ensures
        next.0 is Finalizing,
        next.1 is FinalizeRequest,
        next.1->FinalizeRequest_request == request,
        next.1->FinalizeRequest_tokenizer is Some <==> req.tokenizer is Some,
        req.tokenizer is Some ==> *next.1->FinalizeRequest_tokenizer->0 == *req.tokenizer->0,
{
    lemma_step(worker, req, Stage::Building, Event::<P>::RequestBuilt(request), next);
}

/// The generate request that was finalized goes into the generate call of a worker without
/// a rank. A ranked worker's rank is set on it first: the rank itself where it fits, else
/// the number that agrees with it on 32 bits.
pub proof fn law_rank_or_generate<'a, B, T, P>(
    worker: &WorkerInfo,
    req: &PrimeRequest<'a, B, T>,
    request: P,
    next: (Stage, Action<'a, B, T, P>),
)
    requires
        call_ensures(
            prime_worker::<B, T, P>,
            (worker, req, Stage::Finalizing, Event::<P>::RequestFinalized(request)),
            next,
        ),
    ensures
        worker.dp_rank is None ==> next.0 is Generating && next.1 == Action::<'a, B, T, P>::Generate(
            request,
        ),
        worker.dp_rank is Some ==> {
            &&& next.0 is Ranking
            &&& next.1 is SetRank
            &&& next.1->SetRank_request == request
            &&& worker.dp_rank->0 <= 0x7fff_ffff ==> next.1->SetRank_rank == worker.dp_rank->0
            &&& (worker.dp_rank->0 - next.1->SetRank_rank) % 0x1_0000_0000 == 0
        },
{
    lemma_step(worker, req, Stage::Finalizing, Event::<P>::RequestFinalized(request), next);
}

/// The generate request that was ranked goes into the generate call.
pub proof fn law_ranked_request_is_generated<'a, B, T, P>(
    worker: &WorkerInfo,
    req: &PrimeRequest<'a, B, T>,
    request: P,
    next: (Stage, Action<'a, B, T, P>),
)
    requires
        call_ensures(
            prime_worker::<B, T, P>,
            (worker, req, Stage::Ranking, Event::<P>::RankSet(request)),
            next,
        ),
    ensures
        next.0 is Generating,
        next.1 == Action::<'a, B, T, P>::Generate(request),
{
    lemma_step(worker, req, Stage::Ranking, Event::<P>::RankSet(request), next);
}

/// A generate call that opened a stream has its circuit-breaker status recorded, and then
/// the stream is read.
pub proof fn law_generated<'a, B, T, P>(
    worker: &WorkerInfo,
    req: &PrimeRequest<'a, B, T>,
    cb_status: u16,
    recording: (Stage, Action<'a, B, T, P>),
    reading: (Stage, Action<'a, B, T, P>),
)
    requires
        call_ensures(
            prime_worker::<B, T, P>,
            (worker, req, Stage::Generating, Event::<P>::Generated { cb_status }),
            recording,
        ),
        call_ensures(
            prime_worker::<B, T, P>,
            (worker, req, recording.0, Event::<P>::Recorded),
            reading,
        ),
    ensures
        recording.1 == Action::<'a, B, T, P>::RecordOutcome(cb_status),
        reading.0 is Draining,
        reading.1 is NextItem,
{
    lemma_step(worker, req, Stage::Generating, Event::<P>::Generated { cb_status }, recording);
    lemma_step(worker, req, recording.0, Event::<P>::Recorded, reading);
}

/// A generate call that failed has its circuit-breaker status recorded, and then the prime
/// reports the status and the message of the failure.
pub proof fn law_generate_failure<'a, B, T, P>(
    worker: &WorkerInfo,
    req: &PrimeRequest<'a, B, T>,
    cb_status: u16,
    failure: RpcFailure,
    recording: (Stage, Action<'a, B, T, P>),
    last: (Stage, Action<'a, B, T, P>),
)
    requires
        call_ensures(
            prime_worker::<B, T, P>,
            (worker, req, Stage::Generating, Event::<P>::GenerateFailed { cb_status, failure }),
            recording,
        ),
        call_ensures(
            prime_worker::<B, T, P>,
            (worker, req, recording.0, Event::<P>::Recorded),
            last,
        ),
    ensures
        recording.1 == Action::<'a, B, T, P>::RecordOutcome(cb_status),
        last.0 is Finished,
        last.1 is Finish,
        last.1->Finish_0.http_status == Some(failure.http_status),
        last.1->Finish_0.error is Some,
        last.1->Finish_0.error->0@ == "generate failed: "@ + failure.message@,
{
    lemma_step(worker, req, Stage::Generating, Event::<P>::GenerateFailed { cb_status, failure }, recording);
    lemma_step(worker, req, recording.0, Event::<P>::Recorded, last);
}

/// An item does not end a prime: the stream is read on.
pub proof fn law_stream_item<'a, B, T, P>(
    worker: &WorkerInfo,
    req: &PrimeRequest<'a, B, T>,
    next: (Stage, Action<'a, B, T, P>),
)
    requires
        call_ensures(
            prime_worker::<B, T, P>,
            (worker, req, Stage::Draining, Event::<P>::Chunk),
            next,
        ),
    ensures
        next.0 is Draining,
        next.1 is NextItem,
{
    lemma_step(worker, req, Stage::Draining, Event::<P>::Chunk, next);
}

/// A stream that broke off ends the prime, which reports the status and the message of the
/// failure.
pub proof fn law_stream_failure<'a, B, T, P>(
    worker: &WorkerInfo,
    req: &PrimeRequest<'a, B, T>,
    failure: RpcFailure,
    next: (Stage, Action<'a, B, T, P>),
)
    requires
        call_ensures(
            prime_worker::<B, T, P>,
            (worker, req, Stage::Draining, Event::<P>::StreamFailed(failure)),
            next,
        ),
    ensures
        next.0 is Finished,
        next.1 is Finish,
        next.1->Finish_0.http_status == Some(failure.http_status),
        next.1->Finish_0.error is Some,
        next.1->Finish_0.error->0@ == "prime stream failed: "@ + failure.message@,
{
    lemma_step(worker, req, Stage::Draining, Event::<P>::StreamFailed(failure), next);
}

/// A stream that was read to its end is marked completed, and then the prime reports 200
/// and no error.
pub proof fn law_stream_end<'a, B, T, P>(
    worker: &WorkerInfo,
    req: &PrimeRequest<'a, B, T>,
    marking: (Stage, Action<'a, B, T, P>),
    last: (Stage, Action<'a, B, T, P>),
)
    requires
        call_ensures(
            prime_worker::<B, T, P>,
            (worker, req, Stage::Draining, Event::<P>::StreamEnded),
            marking,
        ),
        call_ensures(
            prime_worker::<B, T, P>,
            (worker, req, marking.0, Event::<P>::MarkedCompleted),
            last,
        ),
    ensures
        marking.1 is MarkCompleted,
        last.0 is Finished,
        last.1 is Finish,
        last.1->Finish_0.http_status == Some(200u16),
        last.1->Finish_0.error is None,
{
    lemma_step(worker, req, Stage::Draining, Event::<P>::StreamEnded, marking);
    lemma_step(worker, req, marking.0, Event::<P>::MarkedCompleted, last);
}

/// A deadline that elapses ends the prime in whatever stage, with a null status and an
/// error that names the timeout by its whole seconds and the nanoseconds beyond them.
pub proof fn law_deadline<'a, B, T, P>(
    worker: &WorkerInfo,
    req: &PrimeRequest<'a, B, T>,
    stage: Stage,
    secs: u64,
    nanos: u32,
    next: (Stage, Action<'a, B, T, P>),
)
    requires
        nanos < 1_000_000_000,
        req.timeout@ == secs * 1_000_000_000 + nanos,
        call_ensures(
            prime_worker::<B, T, P>,
            (worker, req, stage, Event::<P>::DeadlineElapsed),
            next,
        ),
    ensures
        next.0 is Finished,
        next.1 is Finish,
        next.1->Finish_0.http_status == None::<u16>,
        next.1->Finish_0.error is Some,
        next.1->Finish_0.error->0@ == "prime timed out after "@ + duration_debug(secs, nanos),
{
    lemma_step(worker, req, stage, Event::<P>::DeadlineElapsed, next);
}

/// Which answers a stage takes: those of the action that it waits for, and the deadline
/// where it waits on the worker.
pub proof fn law_stage_answers<P>(stage: &Stage, event: &Event<P>, expected: bool)
    requires
        call_ensures(Stage::expects::<P>, (stage, event), expected),
    ensures
        expected == match *stage {
            Stage::Serializing => event is BodyReady || event is BodyFailed,
            Stage::Sending => event is Replied || event is SendFailed || event is DeadlineElapsed,
            Stage::RecordingReply { .. } | Stage::RecordingGenerate { .. } => event is Recorded,
            Stage::Discarding { .. } => event is Discarded || event is DeadlineElapsed,
            Stage::Acquiring => event is ClientReady || event is ClientMissing || event
                is ClientFailed || event is DeadlineElapsed,
            Stage::Building => event is RequestBuilt || event is BuildFailed,
            Stage::Finalizing => event is RequestFinalized,
            Stage::Ranking => event is RankSet,
            Stage::Generating => event is Generated || event is GenerateFailed || event
                is DeadlineElapsed,
            Stage::Draining => event is Chunk || event is StreamFailed || event is StreamEnded
                || event is DeadlineElapsed,
            Stage::Completing => event is MarkedCompleted,
            Stage::Finished => false,
        },
{
}

/// The number that a text of decimal digits stands for.
pub open spec fn number_of(digits: Seq<char>) -> int
    decreases digits.len(),
{
    if digits.len() == 0 {
        0
    } else {
        10 * number_of(digits.drop_last()) + (digits.last() as int - '0' as int)
    }
}

/// The decimal text of a number reads back as that number, in digits alone and without
/// leading zeros.
pub proof fn law_decimal_reads_back(n: nat)
    ensures
        number_of(decimal(n)) == n,
        decimal(n).len() > 0,
        forall|i: int| 0 <= i < decimal(n).len() ==> '0' <= #[trigger] decimal(n)[i] <= '9',
        decimal(n)[0] == '0' ==> n == 0,
    decreases n,
{
    if n >= 10 {
        law_decimal_reads_back(n / 10);
        assert(decimal(n).drop_last() =~= decimal(n / 10));
        assert(decimal(n).last() as int - '0' as int == n % 10);
    } else {
        assert(number_of(decimal(n).drop_last()) == 0);
        assert(decimal(n).last() as int - '0' as int == n);
    }
}

} // verus!
