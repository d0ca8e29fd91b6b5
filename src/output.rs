//! What an external process handed back, as the orchestrator sees it.

use vstd::prelude::*;
use vstd::utf8::{decode_utf8, valid_utf8};

verus! {

/// Relies on `String::from_utf8`: it succeeds exactly on valid UTF-8 and then
/// holds the characters that the bytes encode.
#[verifier::external_body]
fn utf8_string(bytes: Vec<u8>) -> (r: Option<String>)
    ensures
        r is Some <==> valid_utf8(bytes@),
        r matches Some(s) ==> s@ == decode_utf8(bytes@),
{
    String::from_utf8(bytes).ok()
}

/// Text shown in place of output that is not valid UTF-8.
pub open spec fn captured_as(bytes: Seq<u8>, fallback: Seq<char>) -> Seq<char> {
    if valid_utf8(bytes) {
        decode_utf8(bytes)
    } else {
        fallback
    }
}

/// The captured bytes as text, or `fallback` where they are not valid UTF-8:
/// a run is never failed over the encoding of its output alone.
pub fn captured_text(bytes: Vec<u8>, fallback: &str) -> (r: String)
    ensures
        r@ == captured_as(bytes@, fallback@),
{
    match utf8_string(bytes) {
        Some(s) => s,
        None => String::from_str(fallback),
    }
}

/// How one stage's command went.
pub enum CommandOutcome {
    /// The process exited with status zero.
    Succeeded { stdout: String },
    /// The process ran and exited unsuccessfully; `status` is `None` when it
    /// was ended by a signal.
    Failed { status: Option<i32>, stdout: String, stderr: String },
    /// The process could not be started.
    SpawnFailed { message: String },
    /// Dry run: the command was shown and not run.
    Skipped,
}

/// Whether the stage counts as done.
pub open spec fn succeeded(o: CommandOutcome) -> bool {
    o is Succeeded || o is Skipped
}

/// Whether `o` is the outcome of a process that ran, with the given exit and
/// the given captured bytes read as text.
pub open spec fn outcome_of(
    o: CommandOutcome,
    success: bool,
    status: Option<i32>,
    stdout: Seq<u8>,
    stderr: Seq<u8>,
) -> bool {
    match o {
        CommandOutcome::Succeeded { stdout: out } => success && out@ == captured_as(
            stdout,
            "cant get stdout"@,
        ),
        CommandOutcome::Failed { status: s, stdout: out, stderr: err } => !success && s == status
            && out@ == captured_as(stdout, "cant get stdout"@) && err@ == captured_as(
            stderr,
            "cant get stderr"@,
        ),
        _ => false,
    }
}

/// The outcome of a process that ran: `success` is whether it exited with
/// status zero, `status` its exit code if it has one.
pub fn process_outcome(success: bool, status: Option<i32>, stdout: Vec<u8>, stderr: Vec<u8>) -> (r:
    CommandOutcome)
    ensures
        outcome_of(r, success, status, stdout@, stderr@),
{
    let out = captured_text(stdout, "cant get stdout");
    if success {
        CommandOutcome::Succeeded { stdout: out }
    } else {
        let err = captured_text(stderr, "cant get stderr");
        CommandOutcome::Failed { status, stdout: out, stderr: err }
    }
}

} // verus!
