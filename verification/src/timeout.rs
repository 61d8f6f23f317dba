//! The bound on one prime send.

use vstd::prelude::*;

use crate::text::join;

verus! {

/// Nanoseconds in one second.
pub const NANOS_PER_SEC: u32 = 1_000_000_000;

/// Bound on one prime send, in seconds.
///
/// A prime is a full prefill of the benchmark's shared prefix, so it is bounded
/// far more loosely than the unary admin operations. A bound is mandatory rather
/// than defensive: a generate call has no deadline of its own, and an admin
/// fan-out has no client disconnect to fall back on, so a wedged engine would
/// otherwise hang the whole request forever.
pub const PRIME_TIMEOUT_SECS: u64 = 300;

/// A span of time, as whole seconds and the nanoseconds beyond them. Its view is
/// the whole span in nanoseconds.
#[derive(Clone, Copy, Debug)]
pub struct Timeout {
    secs: u64,
    nanos: u32,
}

impl View for Timeout {
    type V = nat;

    closed spec fn view(&self) -> nat {
        (self.secs * NANOS_PER_SEC + self.nanos) as nat
    }
}

impl Timeout {
    #[verifier::type_invariant]
    spec fn inv(self) -> bool {
        self.nanos < NANOS_PER_SEC
    }

    /// The span of `secs` seconds and `nanos` nanoseconds.
    pub fn new(secs: u64, nanos: u32) -> (timeout: Self)
        requires
            secs + nanos / NANOS_PER_SEC <= u64::MAX,
        ensures
            timeout@ == secs * NANOS_PER_SEC + nanos,
            timeout@ == secs * 1_000_000_000 + nanos,
    {
        Timeout { secs: secs + (nanos / NANOS_PER_SEC) as u64, nanos: nanos % NANOS_PER_SEC }
    }

    /// The span of `secs` seconds.
    pub fn from_secs(secs: u64) -> (timeout: Self)
        ensures
            timeout@ == secs * NANOS_PER_SEC,
            timeout@ == secs * 1_000_000_000,
    {
        Timeout { secs, nanos: 0 }
    }

    /// The whole seconds in the span.
    pub fn as_secs(&self) -> (secs: u64)
        ensures
            secs == self@ / NANOS_PER_SEC as nat,
            secs * 1_000_000_000 <= self@ < (secs + 1) * 1_000_000_000,
    {
        proof {
            use_type_invariant(self);
        }
        self.secs
    }

    /// The nanoseconds beyond the whole seconds.
    pub fn subsec_nanos(&self) -> (nanos: u32)
        ensures
            nanos == self@ % NANOS_PER_SEC as nat,
            nanos < 1_000_000_000,
            (self@ - nanos) % 1_000_000_000 == 0,
    {
        proof {
            use_type_invariant(self);
        }
        self.nanos
    }
}

/// What `std::time::Duration` of `secs` seconds and `nanos` nanoseconds prints
/// under `{:?}`.
pub uninterp spec fn duration_debug(secs: u64, nanos: u32) -> Seq<char>;

/// The `Debug` form of `std::time::Duration`. Claims that the text depends on the
/// two components of the duration alone. What the text is stays unstated: the
/// standard library documents no format for it.
#[verifier::external_body]
fn debug_duration(secs: u64, nanos: u32) -> (s: String)
    requires
        nanos < NANOS_PER_SEC,
    ensures
        s@ == duration_debug(secs, nanos),
{
    format!("{:?}", std::time::Duration::new(secs, nanos))
}

/// The message of a prime that ran out of a timeout of `nanos` nanoseconds.
pub open spec fn timed_out_message(nanos: nat) -> Seq<char> {
    "prime timed out after "@ + duration_debug(
        (nanos / NANOS_PER_SEC as nat) as u64,
        (nanos % NANOS_PER_SEC as nat) as u32,
    )
}

/// Words the expiry of a timeout that prints as `elapsed`.
pub fn timed_out_after(elapsed: &str) -> (s: String)
    ensures
        s@ == "prime timed out after "@ + elapsed@,
{
    join("prime timed out after ", elapsed)
}

/// Words the expiry of `timeout`.
pub fn timed_out_text(timeout: &Timeout) -> (s: String)
    ensures
        s@ == timed_out_message(timeout@),
        forall|secs: u64, nanos: u32|
            nanos < 1_000_000_000 && timeout@ == secs * 1_000_000_000 + nanos ==> s@
                == "prime timed out after "@ + #[trigger] duration_debug(secs, nanos),
{
    let elapsed = debug_duration(timeout.as_secs(), timeout.subsec_nanos());
    timed_out_after(elapsed.as_str())
}

} // verus!
