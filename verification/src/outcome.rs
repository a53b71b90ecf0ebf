//! The closed taxonomy of invocation outcomes.
//!
//! Every call of the runner ends in exactly one of these: the caller's own
//! text handed back untouched, the backend's trimmed output, or a typed
//! failure with a human-readable detail.

use vstd::prelude::*;

verus! {

/// The closed set of ways an invocation can fail.
#[derive(Clone, Copy, Debug, PartialEq, Eq, Structural)]
pub enum ErrorKind {
    /// The backend process could not be created.
    SpawnError,
    /// An OS-level failure occurred while polling for the process's status.
    WaitError,
    /// The deadline passed before the process exited; it was forcibly
    /// terminated.
    Timeout,
    /// The process ran and exited non-zero; the detail is its own
    /// diagnostic text.
    BackendError,
}

/// The result of one invocation.
#[derive(Debug, PartialEq, Eq)]
pub enum Outcome {
    /// The original input text, byte for byte: returned when the input was
    /// blank or the backend produced a blank result, so there was nothing
    /// to report.
    PassThrough(String),
    /// The backend exited cleanly; the captured standard output with its
    /// surrounding whitespace trimmed.
    Success(String),
    /// The invocation failed; the detail string is human-readable.
    Failure(ErrorKind, String),
}

/// The spec-level shape of an [`Outcome`], over character sequences.
pub enum OutcomeModel {
    PassThrough(Seq<char>),
    Success(Seq<char>),
    Failure(ErrorKind, Seq<char>),
}

impl View for Outcome {
    type V = OutcomeModel;

    open spec fn view(&self) -> OutcomeModel {
        match self {
            Outcome::PassThrough(s) => OutcomeModel::PassThrough(s@),
            Outcome::Success(s) => OutcomeModel::Success(s@),
            Outcome::Failure(k, d) => OutcomeModel::Failure(*k, d@),
        }
    }
}

} // verus!
