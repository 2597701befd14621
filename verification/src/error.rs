//! The error taxonomy: every fallible operation surfaces exactly one of
//! these, synchronously, and none is retried internally.

use vstd::prelude::*;

verus! {

/// Why an operation failed.
#[derive(Debug, Clone, PartialEq, Eq)]
pub enum LxdError {
    /// The external executable could not be spawned at all; carries the
    /// underlying spawn failure's message.
    SpawnFailure(String),
    /// The external tool ran and exited without success. Exit status is the
    /// tool's only error channel, so the full argument list and the raw exit
    /// code (`None` when the process died without one) are carried along for
    /// diagnosis.
    CommandFailure { args: Vec<String>, code: Option<i32> },
    /// Captured structured output did not have the expected shape; carries
    /// the underlying parser's message.
    ParseFailure(String),
    /// A single-name query did not resolve to exactly one record: zero
    /// matches and several matches both land here. Carries the name asked
    /// for.
    NotFound(String),
}

impl LxdError {
    /// True of the two kinds that an imperative (non-capturing) command can
    /// produce.
    pub open spec fn is_run_failure(&self) -> bool {
        self is SpawnFailure || self is CommandFailure
    }
}

} // verus!
