//! The conversation between a prime and its caller: the prime asks for one action
//! at a time, the caller performs it and answers with an event.

use vstd::prelude::*;

use crate::outcome::{text_of, OutcomeView, PrimeOutcome};
use crate::request::{str_of, target_of};
use crate::timeout::Timeout;

verus! {

/// Why no outbound HTTP body could be made.
#[derive(Debug)]
pub enum BodyError {
    /// The serving body did not serialize.
    Serialize(String),
    /// The worker could not prepare the serialized body.
    Prepare(String),
}

/// A failed RPC: its status on the HTTP scale, and its message.
#[derive(Debug)]
pub struct RpcFailure {
    pub http_status: u16,
    pub message: String,
}

/// Where a prime stands: which action it is waiting for.
#[derive(Debug)]
pub enum Stage {
    /// HTTP: the outbound body is being made.
    Serializing,
    /// HTTP: the request is on the wire.
    Sending,
    /// HTTP: the engine answered `status`, which is being recorded.
    RecordingReply { status: u16 },
    /// HTTP: the engine answered `status`, and the rest of its answer is being read.
    Discarding { status: u16 },
    /// Backend: a client is being acquired.
    Acquiring,
    /// Backend: the generate request is being built.
    Building,
    /// Backend: the generate request is being finalized.
    Finalizing,
    /// Backend: the data-parallel rank is being set.
    Ranking,
    /// Backend: the generate call is under way.
    Generating,
    /// Backend: the result of the generate call is being recorded.
    RecordingGenerate { failure: Option<RpcFailure> },
    /// Backend: the stream is being read.
    Draining,
    /// Backend: the stream is being marked completed.
    Completing,
    /// The row has been reported.
    Finished,
}

/// What the caller answers to an action. `P` is a generate request in the backend's own
/// form, which a prime hands on without looking inside.
#[derive(Debug)]
pub enum Event<P> {
    /// The outbound body, as it goes on the wire.
    BodyReady(Vec<u8>),
    BodyFailed(BodyError),
    /// The engine answered with this status.
    Replied(u16),
    /// No response at all: a transport error, or the client's own timeout.
    SendFailed(String),
    Recorded,
    /// The rest of the answer has been read, or could not be: either way it is gone.
    Discarded,
    ClientReady,
    /// The worker has no backend client.
    ClientMissing,
    ClientFailed(String),
    /// The generate request, as built.
    RequestBuilt(P),
    BuildFailed(String),
    /// The generate request, as finalized.
    RequestFinalized(P),
    /// The generate request, with its rank set.
    RankSet(P),
    /// The generate call opened a stream. `cb_status` is its circuit-breaker status.
    Generated { cb_status: u16 },
    GenerateFailed { cb_status: u16, failure: RpcFailure },
    /// The stream gave one more item.
    Chunk,
    StreamFailed(RpcFailure),
    StreamEnded,
    MarkedCompleted,
    /// The request's timeout ran out while the action was awaited.
    DeadlineElapsed,
}

/// The HTTP request that a prime sends.
#[derive(Debug)]
pub struct HttpRequest {
    /// The request method, as it stands on the wire.
    pub method: String,
    /// The engine route that the request is sent to.
    pub route: String,
    /// The one header that the prime itself sets: its name.
    pub header_name: String,
    /// The one header that the prime itself sets: its value.
    pub header_value: String,
    /// Overrides the default request timeout of the worker's client.
    pub timeout: Timeout,
    pub body: Vec<u8>,
    /// Sent as a bearer token, where there is one.
    pub bearer: Option<String>,
}

/// A [`HttpRequest`] over mathematical values.
pub struct HttpRequestView {
    pub method: Seq<char>,
    pub route: Seq<char>,
    pub header_name: Seq<char>,
    pub header_value: Seq<char>,
    /// In nanoseconds.
    pub timeout: nat,
    pub body: Seq<u8>,
    pub bearer: Option<Seq<char>>,
}

impl View for HttpRequest {
    type V = HttpRequestView;

    open spec fn view(&self) -> HttpRequestView {
        HttpRequestView {
            method: self.method@,
            route: self.route@,
            header_name: self.header_name@,
            header_value: self.header_value@,
            timeout: self.timeout@,
            body: self.body@,
            bearer: text_of(self.bearer),
        }
    }
}

/// What the caller is asked to do next.
#[derive(Debug)]
pub enum Action<'a, B, T, P> {
    /// Make the outbound HTTP body for this worker.
    SerializeBody { body: &'a B, canonical_model: Option<&'a str> },
    /// Send the request to the worker and await the head of its answer.
    SendHttp(HttpRequest),
    /// Record a status with the worker's circuit breaker.
    RecordOutcome(u16),
    /// Read the rest of the answer and discard it: leaving it unread would return a
    /// dirty connection to the pool.
    DiscardBody,
    /// Acquire a client of the worker's backend.
    AcquireClient,
    /// Build the generate request.
    BuildRequest { request_id: String, body: &'a B, prompt: String, token_ids: Vec<u32> },
    /// Finalize this generate request. The stops that are left to the caller are
    /// dropped, as is the output that they would trim.
    FinalizeRequest { request: P, tokenizer: Option<&'a T> },
    /// Set the data-parallel rank on this generate request.
    SetRank { request: P, rank: i32 },
    /// Make the generate call with this request.
    Generate(P),
    /// Await the next item of the stream.
    NextItem,
    /// Mark the stream completed, so that dropping it sends no abort.
    MarkCompleted,
    /// Report this row. A stream that was not marked completed is dropped, which
    /// aborts the generation on the engine.
    Finish(PrimeOutcome),
}

/// An [`Action`] over mathematical values.
pub enum ActionView<B, T, P> {
    SerializeBody { body: B, canonical_model: Option<Seq<char>> },
    SendHttp(HttpRequestView),
    RecordOutcome(u16),
    DiscardBody,
    AcquireClient,
    BuildRequest { request_id: Seq<char>, body: B, prompt: Seq<char>, token_ids: Seq<u32> },
    FinalizeRequest { request: P, tokenizer: Option<T> },
    SetRank { request: P, rank: i32 },
    Generate(P),
    NextItem,
    MarkCompleted,
    Finish(OutcomeView),
}

impl<'a, B, T, P> View for Action<'a, B, T, P> {
    type V = ActionView<B, T, P>;

    open spec fn view(&self) -> ActionView<B, T, P> {
        match *self {
            Action::SerializeBody { body, canonical_model } => ActionView::SerializeBody {
                body: *body,
                canonical_model: str_of(canonical_model),
            },
            Action::SendHttp(request) => ActionView::SendHttp(request@),
            Action::RecordOutcome(status) => ActionView::RecordOutcome(status),
            Action::DiscardBody => ActionView::DiscardBody,
            Action::AcquireClient => ActionView::AcquireClient,
            Action::BuildRequest { request_id, body, prompt, token_ids } => ActionView::BuildRequest {
                request_id: request_id@,
                body: *body,
                prompt: prompt@,
                token_ids: token_ids@,
            },
            Action::FinalizeRequest { request, tokenizer } => ActionView::FinalizeRequest {
                request,
                tokenizer: target_of(tokenizer),
            },
            Action::SetRank { request, rank } => ActionView::SetRank { request, rank },
            Action::Generate(request) => ActionView::Generate(request),
            Action::NextItem => ActionView::NextItem,
            Action::MarkCompleted => ActionView::MarkCompleted,
            Action::Finish(outcome) => ActionView::Finish(outcome@),
        }
    }
}

/// The stages of a prime over HTTP.
pub open spec fn http_stage(stage: Stage) -> bool {
    stage is Serializing || stage is Sending || stage is RecordingReply || stage is Discarding
}

/// The stages of a prime over a token-only wire.
pub open spec fn backend_stage(stage: Stage) -> bool {
    !http_stage(stage) && !(stage is Finished)
}

/// The stages in which the prime is suspended on the worker. The others pass in one
/// go, and no deadline can fall into them.
pub open spec fn awaiting(stage: Stage) -> bool {
    match stage {
        Stage::Sending => true,
        Stage::Discarding { .. } => true,
        Stage::Acquiring => true,
        Stage::Generating => true,
        Stage::Draining => true,
        _ => false,
    }
}

/// The events that may come in `stage`.
pub open spec fn expects<P>(stage: Stage, event: Event<P>) -> bool {
    match event {
        Event::BodyReady(_) | Event::BodyFailed(_) => stage is Serializing,
        Event::Replied(_) | Event::SendFailed(_) => stage is Sending,
        Event::Recorded => stage is RecordingReply || stage is RecordingGenerate,
        Event::Discarded => stage is Discarding,
        Event::ClientReady | Event::ClientMissing | Event::ClientFailed(_) => stage is Acquiring,
        Event::RequestBuilt(_) | Event::BuildFailed(_) => stage is Building,
        Event::RequestFinalized(_) => stage is Finalizing,
        Event::RankSet(_) => stage is Ranking,
        Event::Generated { .. } | Event::GenerateFailed { .. } => stage is Generating,
        Event::Chunk | Event::StreamFailed(_) | Event::StreamEnded => stage is Draining,
        Event::MarkedCompleted => stage is Completing,
        Event::DeadlineElapsed => awaiting(stage),
    }
}

impl Stage {
    /// Whether `event` may come in this stage.
    pub fn expects<P>(&self, event: &Event<P>) -> (expected: bool)
        ensures
            expected == expects(*self, *event),
    {
        match event {
            Event::BodyReady(_) | Event::BodyFailed(_) => matches!(self, Stage::Serializing),
            Event::Replied(_) | Event::SendFailed(_) => matches!(self, Stage::Sending),
            Event::Recorded => matches!(
                self,
                Stage::RecordingReply { .. } | Stage::RecordingGenerate { .. }
            ),
            Event::Discarded => matches!(self, Stage::Discarding { .. }),
            Event::ClientReady | Event::ClientMissing | Event::ClientFailed(_) => matches!(
                self,
                Stage::Acquiring
            ),
            Event::RequestBuilt(_) | Event::BuildFailed(_) => matches!(self, Stage::Building),
            Event::RequestFinalized(_) => matches!(self, Stage::Finalizing),
            Event::RankSet(_) => matches!(self, Stage::Ranking),
            Event::Generated { .. } | Event::GenerateFailed { .. } => matches!(
                self,
                Stage::Generating
            ),
            Event::Chunk | Event::StreamFailed(_) | Event::StreamEnded => matches!(
                self,
                Stage::Draining
            ),
            Event::MarkedCompleted => matches!(self, Stage::Completing),
            Event::DeadlineElapsed => matches!(
                self,
                Stage::Sending | Stage::Discarding { .. } | Stage::Acquiring | Stage::Generating
                    | Stage::Draining
            ),
        }
    }
}

} // verus!
