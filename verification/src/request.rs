//! What a prime is asked to send, and what it has to know of the worker.

use vstd::prelude::*;

use crate::outcome::text_of;
use crate::timeout::Timeout;

verus! {

/// Everything one prime send needs that a worker cannot compute itself. `B` is the
/// serving body and `T` the tokenizer; a prime carries both without looking inside.
pub struct PrimeRequest<'a, B, T> {
    /// The normalized serving body: canonical `model`, `stream` forced false,
    /// `rid` cleared. Built once by the handler and shared by every target.
    pub body: &'a B,
    /// The shared prefix, verbatim. Rides along with the tokens (cosmetic, for
    /// worker logs) on the token-only wires.
    pub prompt: &'a str,
    /// `prompt` encoded without special tokens, as serving encodes it. Encoding it
    /// any other way primes a different token sequence than the benchmark then
    /// sends: every target would report 200 on a silent no-op.
    pub token_ids: &'a [u32],
    /// Handed to the step that finalizes the generate request. `None` on a
    /// pure-HTTP deployment, which may legitimately have no tokenizer registered.
    pub tokenizer: Option<&'a T>,
    /// Canonical model id when the caller used an alias, for the HTTP body
    /// rewrite. `None` when the body's model is already canonical.
    pub canonical_model: Option<&'a str>,
    /// Bound on the whole send.
    pub timeout: Timeout,
}

/// A [`PrimeRequest`] over mathematical values.
pub struct RequestView<B, T> {
    pub body: B,
    pub prompt: Seq<char>,
    pub token_ids: Seq<u32>,
    pub tokenizer: Option<T>,
    pub canonical_model: Option<Seq<char>>,
    /// In nanoseconds.
    pub timeout: nat,
}

impl<'a, B, T> View for PrimeRequest<'a, B, T> {
    type V = RequestView<B, T>;

    open spec fn view(&self) -> RequestView<B, T> {
        RequestView {
            body: *self.body,
            prompt: self.prompt@,
            token_ids: self.token_ids@,
            tokenizer: target_of(self.tokenizer),
            canonical_model: str_of(self.canonical_model),
            timeout: self.timeout@,
        }
    }
}

/// The value behind an optional reference.
pub open spec fn target_of<T>(t: Option<&T>) -> Option<T> {
    match t {
        Some(t) => Some(*t),
        None => None,
    }
}

/// The characters of an optional string slice.
pub open spec fn str_of(s: Option<&str>) -> Option<Seq<char>> {
    match s {
        Some(s) => Some(s@),
        None => None,
    }
}

/// How the gateway reaches a worker.
#[derive(Debug, Clone, Copy, PartialEq, Eq)]
pub enum ConnectionMode {
    Http,
    Grpc,
    Zmq,
}

/// What a prime reads of the worker it is sent to.
#[derive(Debug)]
pub struct WorkerInfo {
    pub connection_mode: ConnectionMode,
    /// Sent as a bearer token over HTTP.
    pub api_key: Option<String>,
    /// The data-parallel rank of a rank-expanded worker.
    pub dp_rank: Option<usize>,
}

/// A [`WorkerInfo`] over mathematical values.
pub struct WorkerView {
    pub connection_mode: ConnectionMode,
    pub api_key: Option<Seq<char>>,
    pub dp_rank: Option<usize>,
}

impl View for WorkerInfo {
    type V = WorkerView;

    open spec fn view(&self) -> WorkerView {
        WorkerView {
            connection_mode: self.connection_mode,
            api_key: text_of(self.api_key),
            dp_rank: self.dp_rank,
        }
    }
}

/// The low 32 bits of `rank`, read as a two's complement number.
pub open spec fn low_i32(rank: nat) -> int {
    let low = rank % 0x1_0000_0000;
    if low < 0x8000_0000 {
        low as int
    } else {
        low - 0x1_0000_0000
    }
}

/// The rank as the generate request carries it.
pub fn wire_rank(rank: usize) -> (wire: i32)
    ensures
        wire == low_i32(rank as nat),
        rank <= i32::MAX ==> wire == rank,
        (rank - wire) % 0x1_0000_0000 == 0,
{
    let wide: u64 = rank as u64;
    let wire: i32 = #[verifier::truncate] (wide as i32);
    proof {
        let low: u64 = wide % 0x1_0000_0000;
        assert(low < 0x8000_0000 ==> (wide as i32) == low) by (bit_vector)
            requires
                low == wide % 0x1_0000_0000,
        ;
        assert(low >= 0x8000_0000 ==> (wide as i32) == low - 0x1_0000_0000) by (bit_vector)
            requires
                low == wide % 0x1_0000_0000,
        ;
    }
    wire
}

} // verus!
