//! The error type shared by every client operation, with the kind of failure
//! it reports made explicit.

use vstd::prelude::*;
use vstd::string::StringExecFns;

verus! {

/// Which kind of failure a `GraphiteError` reports.
///
/// Address and tuning failures are never retried; connect and write failures
/// feed the retry loops and surface as `Exhausted` once the budget is spent.
#[derive(Clone, Copy, Debug, PartialEq, Eq, Structural)]
pub enum GraphiteErrorKind {
    /// The endpoint address is not an IP literal.
    AddressParse,
    /// The single connection attempt made during construction failed.
    Connect,
    /// Applying socket options to a freshly opened connection failed.
    Tuning,
    /// A retry loop consumed its whole budget without success.
    Exhausted,
}

/// Error returned by client operations: a kind and a human-readable message.
#[derive(Clone, Debug)]
pub struct GraphiteError {
    /// Which kind of failure occurred.
    pub kind: GraphiteErrorKind,
    /// Human-readable error message describing what went wrong.
    pub msg: String,
}

/// Mathematical model of a `GraphiteError`: its kind and message text.
pub struct ErrorModel {
    pub kind: GraphiteErrorKind,
    pub msg: Seq<char>,
}

impl View for GraphiteError {
    type V = ErrorModel;

    open spec fn view(&self) -> ErrorModel {
        ErrorModel { kind: self.kind, msg: self.msg@ }
    }
}

/// The text that introduces every exhaustion message.
pub open spec fn exhaustion_prefix() -> Seq<char> {
    "Graphite Error: "@
}

/// The exhaustion error built from the most recent underlying failure `e`.
pub open spec fn exhaustion_model(e: Seq<char>) -> ErrorModel {
    ErrorModel { kind: GraphiteErrorKind::Exhausted, msg: exhaustion_prefix() + e }
}

/// The exhaustion error reported when a loop with a zero budget made no
/// attempt at all, so no underlying failure was observed.
pub open spec fn exhaustion_without_attempt_model() -> ErrorModel {
    ErrorModel { kind: GraphiteErrorKind::Exhausted, msg: "Graphite Error: no attempt was made"@ }
}

impl GraphiteError {
    /// Builds the terminal error of a retry loop from the most recent
    /// underlying failure observed.
    pub fn exhaustion(last: &String) -> (r: GraphiteError)
        ensures
            r@ == exhaustion_model(last@),
    {
        let msg = String::from_str("Graphite Error: ").concat(last.as_str());
        GraphiteError { kind: GraphiteErrorKind::Exhausted, msg }
    }

    /// Builds the terminal error of a retry loop that was given no budget and
    /// so observed no underlying failure.
    pub fn exhaustion_without_attempt() -> (r: GraphiteError)
        ensures
            r@ == exhaustion_without_attempt_model(),
    {
        GraphiteError {
            kind: GraphiteErrorKind::Exhausted,
            msg: String::from_str("Graphite Error: no attempt was made"),
        }
    }

    /// The error's human-readable description.
    pub fn description(&self) -> (r: &str)
        ensures
            r@ == self.msg@,
    {
        self.msg.as_str()
    }
}

} // verus!
