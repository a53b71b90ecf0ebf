//! The bounded process runner's decision logic.
//!
//! One invocation proceeds: fast path on blank input, prompt assembly,
//! spawn, a poll-with-deadline loop, then harvesting and classification of
//! the exit. The spawning, polling, killing and sleeping are operating
//! system work and are done by the embedding application; every decision
//! along that path is a verified function here, and the application only
//! carries each decision out. [`run_model`] states the outcome of the whole
//! composition as a function of the input text and of what the backend was
//! observed to do.

use crate::digits::spec_udec;
use crate::digits::u64_to_dec;
use crate::outcome::ErrorKind;
use crate::outcome::Outcome;
use crate::outcome::OutcomeModel;
use crate::text::trim_str;
use crate::text::trimmed;
use vstd::prelude::*;
use vstd::string::StringExecFns;
use vstd::utf8::encode_utf8;
use vstd::utf8::valid_utf8;

verus! {

/// Deadline for one backend invocation, in seconds.
pub const DEFAULT_TIMEOUT_SECS: u64 = 30;

/// The same deadline in milliseconds, as the poll loop measures time.
pub const TIMEOUT_MS: u64 = DEFAULT_TIMEOUT_SECS * 1000;

/// How long the poll loop sleeps between two status checks, in
/// milliseconds: short enough to keep timeout enforcement close to the
/// nominal deadline, long enough to avoid busy-spinning.
pub const POLL_INTERVAL_MS: u64 = 100;

/// The text that `String::from_utf8_lossy` decodes the given bytes to;
/// a function of the bytes alone.
pub uninterp spec fn lossy_decode(bytes: Seq<u8>) -> Seq<char>;

/// Relies on `String::from_utf8_lossy`: the decoding is a function of the
/// bytes alone, valid UTF-8 decodes to the string it encodes, and nothing
/// decodes to more than nothing.
#[verifier::external_body]
fn decode_lossy(bytes: &[u8]) -> (r: String)
    ensures
        r@ == lossy_decode(bytes@),
        valid_utf8(bytes@) ==> encode_utf8(r@) == bytes@,
        bytes@.len() == 0 ==> r@.len() == 0,
{
    String::from_utf8_lossy(bytes).into_owned()
}

/// The fast path: a blank input is handed back untouched, before any
/// process is spawned. Returns the pass-through outcome exactly when the
/// trimmed input is empty; otherwise the invocation must go to the backend.
pub fn preflight(text: &str) -> (r: Option<Outcome>)
    ensures
        trimmed(text@).len() == 0 ==> (r matches Some(o) && o@ == OutcomeModel::PassThrough(
            text@,
        )),
        trimmed(text@).len() != 0 ==> r is None,
{
    let t = trim_str(text);
    if t.as_str().is_empty() {
        Some(Outcome::PassThrough(text.to_owned()))
    } else {
        None
    }
}

/// The single directive handed to the backend: the instruction, a blank
/// line, a literal label, a line break, then the text verbatim.
pub fn build_full_prompt(prompt: &str, text: &str) -> (r: String)
    ensures
        r@ == prompt@ + "\n\nText:\n"@ + text@,
{
    let mut s = prompt.to_owned();
    s.append("\n\nText:\n");
    s.append(text);
    s
}

/// What one non-blocking status check of the running process reported.
#[derive(Debug, PartialEq, Eq)]
pub enum PollEvent {
    /// The process has exited; the flag is whether its exit status was
    /// success (exit code zero).
    Exited(bool),
    /// The process is still running.
    StillRunning,
    /// The status check itself failed, with this OS-level message.
    PollFailed(String),
}

/// What the poll loop is to do after one status check.
#[derive(Debug, PartialEq, Eq)]
pub enum LoopStep {
    /// The process exited with the given success flag: collect its output
    /// and classify it with [`harvest`].
    Harvest(bool),
    /// Still running, deadline not reached: sleep this many milliseconds
    /// and poll again.
    Sleep(u64),
    /// Terminate the process (best effort, not awaited) and return this
    /// outcome.
    Abort(Outcome),
}

/// The detail string of a timeout failure, naming the configured deadline.
pub open spec fn timeout_detail_spec() -> Seq<char> {
    "timed out after "@ + spec_udec(DEFAULT_TIMEOUT_SECS as int) + " seconds"@
}

/// Renders the timeout failure's detail string.
pub fn timeout_detail() -> (r: String)
    ensures
        r@ == timeout_detail_spec(),
{
    let mut s = "timed out after ".to_owned();
    let num = u64_to_dec(DEFAULT_TIMEOUT_SECS);
    s.append(num.as_str());
    s.append(" seconds");
    s
}

/// The poll loop's policy: given what one status check reported and how
/// many milliseconds have passed since the spawn, decide the next step.
/// An exited process is harvested; a process still running past the
/// deadline is terminated and the call fails with `Timeout`; a process
/// still running within the deadline is polled again after one interval;
/// a failed status check ends the call with `WaitError` after a
/// best-effort termination.
pub fn decide_poll(event: PollEvent, elapsed_ms: u64) -> (step: LoopStep)
    ensures
        event matches PollEvent::Exited(ok) ==> step == LoopStep::Harvest(ok),
        event is StillRunning && elapsed_ms > TIMEOUT_MS ==> (step matches LoopStep::Abort(o)
            && o@ == OutcomeModel::Failure(ErrorKind::Timeout, timeout_detail_spec())),
        event is StillRunning && elapsed_ms <= TIMEOUT_MS ==> step == LoopStep::Sleep(
            POLL_INTERVAL_MS,
        ),
        event matches PollEvent::PollFailed(m) ==> (step matches LoopStep::Abort(o) && o@
            == OutcomeModel::Failure(ErrorKind::WaitError, m@)),
{
    match event {
        PollEvent::Exited(ok) => LoopStep::Harvest(ok),
        PollEvent::StillRunning => {
            if elapsed_ms > TIMEOUT_MS {
                LoopStep::Abort(Outcome::Failure(ErrorKind::Timeout, timeout_detail()))
            } else {
                LoopStep::Sleep(POLL_INTERVAL_MS)
            }
        },
        PollEvent::PollFailed(m) => LoopStep::Abort(Outcome::Failure(ErrorKind::WaitError, m)),
    }
}

/// The classification of a confirmed exit, over already-decoded streams: a
/// clean exit with blank output passes the original text through, a clean
/// exit with substance returns the trimmed output, and a non-zero exit is
/// a backend failure carrying the diagnostic verbatim.
pub open spec fn harvest_model(
    original: Seq<char>,
    exited_ok: bool,
    out: Seq<char>,
    err: Seq<char>,
) -> OutcomeModel {
    if exited_ok {
        if trimmed(out).len() == 0 {
            OutcomeModel::PassThrough(original)
        } else {
            OutcomeModel::Success(trimmed(out))
        }
    } else {
        OutcomeModel::Failure(ErrorKind::BackendError, err)
    }
}

/// Collects a confirmed exit: decodes the captured streams and classifies
/// them as [`harvest_model`] states.
pub fn harvest(original_text: &str, exited_ok: bool, stdout_bytes: &[u8], stderr_bytes: &[u8]) -> (r:
    Outcome)
    ensures
        r@ == harvest_model(
            original_text@,
            exited_ok,
            lossy_decode(stdout_bytes@),
            lossy_decode(stderr_bytes@),
        ),
{
    if exited_ok {
        let out = decode_lossy(stdout_bytes);
        let t = trim_str(out.as_str());
        if t.as_str().is_empty() {
            Outcome::PassThrough(original_text.to_owned())
        } else {
            Outcome::Success(t)
        }
    } else {
        let err = decode_lossy(stderr_bytes);
        Outcome::Failure(ErrorKind::BackendError, err)
    }
}

/// The classification of a spawn that never produced a process: a
/// `SpawnError` failure carrying the OS-level message.
pub fn spawn_failure(message: String) -> (r: Outcome)
    ensures
        r@ == OutcomeModel::Failure(ErrorKind::SpawnError, message@),
{
    Outcome::Failure(ErrorKind::SpawnError, message)
}

/// The availability probe's answer: `exit_ok` is `Some` of the success
/// flag when the version-query process ran, `None` when it could not be
/// spawned. The backend is available exactly when the query exited zero.
pub fn availability_from_probe(exit_ok: Option<bool>) -> (r: bool)
    ensures
        r == (exit_ok == Some(true)),
{
    match exit_ok {
        Some(ok) => ok,
        None => false,
    }
}

/// What the backend was observed to do for one non-blank invocation, seen
/// from the runner: the spawn failed, a status check failed, the deadline
/// passed, or the process exited with a success flag and its two captured
/// streams.
pub enum BackendObs {
    SpawnFailed(Seq<char>),
    PollFailed(Seq<char>),
    TimedOut,
    Exited(bool, Seq<u8>, Seq<u8>),
}

/// The outcome of a whole invocation as a function of the input text and
/// of the backend observation: blank input passes through before the
/// backend is consulted; otherwise each way the invocation can end is
/// classified as the runner's functions classify it.
pub open spec fn run_model(text: Seq<char>, obs: BackendObs) -> OutcomeModel {
    if trimmed(text).len() == 0 {
        OutcomeModel::PassThrough(text)
    } else {
        match obs {
            BackendObs::SpawnFailed(m) => OutcomeModel::Failure(ErrorKind::SpawnError, m),
            BackendObs::PollFailed(m) => OutcomeModel::Failure(ErrorKind::WaitError, m),
            BackendObs::TimedOut => OutcomeModel::Failure(
                ErrorKind::Timeout,
                timeout_detail_spec(),
            ),
            BackendObs::Exited(ok, out, err) => harvest_model(
                text,
                ok,
                lossy_decode(out),
                lossy_decode(err),
            ),
        }
    }
}

/// A blank input — empty or whitespace only — always yields the original
/// text passed through, whatever the backend would have done.
pub proof fn lemma_blank_input_pass_through(text: Seq<char>, obs: BackendObs)
    requires
        trimmed(text).len() == 0,
    ensures
        run_model(text, obs) == OutcomeModel::PassThrough(text),
{
}

/// A clean exit whose decoded output has substance yields that output with
/// its surrounding whitespace trimmed.
pub proof fn lemma_success_output_trimmed(text: Seq<char>, out: Seq<u8>, err: Seq<u8>)
    requires
        trimmed(text).len() != 0,
        trimmed(lossy_decode(out)).len() != 0,
    ensures
        run_model(text, BackendObs::Exited(true, out, err)) == OutcomeModel::Success(
            trimmed(lossy_decode(out)),
        ),
{
}

/// A clean exit whose decoded output is blank yields the original text
/// passed through, not a failure.
pub proof fn lemma_blank_output_pass_through(text: Seq<char>, out: Seq<u8>, err: Seq<u8>)
    requires
        trimmed(lossy_decode(out)).len() == 0,
    ensures
        run_model(text, BackendObs::Exited(true, out, err)) == OutcomeModel::PassThrough(text),
{
}

/// A non-zero exit yields a `BackendError` failure carrying the decoded
/// standard-error text verbatim.
pub proof fn lemma_backend_error_verbatim(text: Seq<char>, out: Seq<u8>, err: Seq<u8>)
    requires
        trimmed(text).len() != 0,
    ensures
        run_model(text, BackendObs::Exited(false, out, err)) == OutcomeModel::Failure(
            ErrorKind::BackendError,
            lossy_decode(err),
        ),
{
}

/// A deadline that passes on a non-blank input yields a `Timeout` failure
/// whose detail names the configured deadline; a failed spawn yields a
/// `SpawnError` failure carrying the OS-level message.
pub proof fn lemma_failures_classified(text: Seq<char>, message: Seq<char>)
    requires
        trimmed(text).len() != 0,
    ensures
        run_model(text, BackendObs::TimedOut) == OutcomeModel::Failure(
            ErrorKind::Timeout,
            timeout_detail_spec(),
        ),
        run_model(text, BackendObs::SpawnFailed(message)) == OutcomeModel::Failure(
            ErrorKind::SpawnError,
            message,
        ),
        run_model(text, BackendObs::PollFailed(message)) == OutcomeModel::Failure(
            ErrorKind::WaitError,
            message,
        ),
{
}

/// Two invocations with identical input text and identical backend
/// observations yield identical outcomes: the runner adds no
/// nondeterminism of its own. Nondeterminism of the backend itself shows
/// up as differing observations and is not masked.
pub proof fn lemma_run_deterministic(text: Seq<char>, obs1: BackendObs, obs2: BackendObs)
    requires
        obs1 == obs2,
    ensures
        run_model(text, obs1) == run_model(text, obs2),
{
}

} // verus!
