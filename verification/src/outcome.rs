//! The row that one prime reports.

use vstd::prelude::*;

verus! {

/// Outcome of one prime send. Infallible by shape: the contract reports one row
/// per target, so a failure is data, not an error.
#[derive(Debug, PartialEq, Eq)]
pub struct PrimeOutcome {
    pub http_status: Option<u16>,
    pub error: Option<String>,
}

/// A [`PrimeOutcome`] with its error as a sequence of characters.
pub struct OutcomeView {
    pub http_status: Option<u16>,
    pub error: Option<Seq<char>>,
}

/// The characters of an optional string.
pub open spec fn text_of(s: Option<String>) -> Option<Seq<char>> {
    match s {
        Some(s) => Some(s@),
        None => None,
    }
}

impl View for PrimeOutcome {
    type V = OutcomeView;

    open spec fn view(&self) -> OutcomeView {
        OutcomeView { http_status: self.http_status, error: text_of(self.error) }
    }
}

/// The row of a prime that succeeded with `status`.
pub open spec fn ok_row(status: u16) -> OutcomeView {
    OutcomeView { http_status: Some(status), error: None }
}

/// The row of a prime that failed: the status, where there was one, and why.
pub open spec fn failed_row(status: Option<u16>, error: Seq<char>) -> OutcomeView {
    OutcomeView { http_status: status, error: Some(error) }
}

/// The 2xx statuses.
pub open spec fn success_status(status: u16) -> bool {
    200 <= status < 300
}

impl PrimeOutcome {
    /// A prime that succeeded with `status`.
    pub fn ok(status: u16) -> (outcome: Self)
        ensures
            outcome@ == ok_row(status),
            outcome.http_status == Some(status),
            outcome.error is None,
    {
        PrimeOutcome { http_status: Some(status), error: None }
    }

    /// A prime that failed. `status` is `None` where no answer came back.
    pub fn failed(status: Option<u16>, error: String) -> (outcome: Self)
        ensures
            outcome@ == failed_row(status, error@),
            outcome.http_status == status,
            outcome.error == Some(error),
    {
        PrimeOutcome { http_status: status, error: Some(error) }
    }
}

/// Whether `status` is 2xx.
pub fn is_success(status: u16) -> (success: bool)
    ensures
        success == success_status(status),
        success <==> 200 <= status <= 299,
{
    200 <= status && status < 300
}

} // verus!
