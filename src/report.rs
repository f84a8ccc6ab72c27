//! The texts returned to the host. Every outcome, failure included, is handed
//! back as one string.
use vstd::prelude::*;
use vstd::string::StringExecFns;
use vstd::utf8::{decode_utf8, valid_utf8};

verus! {

/// The text that starts every report of a failed directory change.
pub open spec fn change_failure_prefix() -> Seq<char> {
    "Failed to change directory: "@
}

/// The text that starts every report of a process that could not be run.
pub open spec fn run_failure_prefix() -> Seq<char> {
    "Error executing command: "@
}

/// True when `s` begins with `prefix`.
pub open spec fn has_prefix(s: Seq<char>, prefix: Seq<char>) -> bool {
    prefix.len() <= s.len() && s.subrange(0, prefix.len() as int) == prefix
}

/// The working directory as text, given what querying it gave: the queried
/// text, or the empty text when the query failed.
pub fn directory_text(queried: Option<String>) -> (r: String)
    ensures
        r@ == match queried {
            Some(s) => s@,
            None => Seq::<char>::empty(),
        },
{
    match queried {
        Some(s) => s,
        None => String::new(),
    }
}

/// Every report of a failed directory change begins with the failure prefix,
/// whatever the system's message.
pub proof fn lemma_change_failure_has_prefix(message: Seq<char>)
    ensures
        has_prefix(change_failure_prefix() + message, change_failure_prefix()),
{
    let p = change_failure_prefix();
    assert((p + message).subrange(0, p.len() as int) =~= p);
}

/// Every report of a process that could not be started begins with the
/// failure prefix, whatever the system's message.
pub proof fn lemma_run_failure_has_prefix(message: Seq<char>)
    ensures
        has_prefix(run_failure_prefix() + message, run_failure_prefix()),
{
    let p = run_failure_prefix();
    assert((p + message).subrange(0, p.len() as int) =~= p);
}

/// The report of a directory change: the working directory as queried after
/// the change when it succeeded, else the failure prefix followed by the
/// system's message.
pub fn change_report(outcome: Result<String, String>) -> (r: String)
    ensures
        r@ == match outcome {
            Ok(now) => now@,
            Err(message) => change_failure_prefix() + message@,
        },
{
    match outcome {
        Ok(now) => now,
        Err(message) => {
            let mut r = String::from_str("Failed to change directory: ");
            r.append(message.as_str());
            r
        },
    }
}

/// What a finished child process wrote: its standard output and its
/// standard error, as raw bytes.
pub struct CapturedOutput {
    pub stdout: Vec<u8>,
    pub stderr: Vec<u8>,
}

/// The text that `String::from_utf8_lossy` makes of `bytes`.
pub uninterp spec fn lossy_text(bytes: Seq<u8>) -> Seq<char>;

/// Relies on `String::from_utf8_lossy`: the text depends on the bytes alone,
/// and bytes that are valid UTF-8 are decoded as they stand (only invalid
/// sequences are replaced).
#[verifier::external_body]
fn decode_lossy(bytes: &Vec<u8>) -> (r: String)
    ensures
        r@ == lossy_text(bytes@),
        valid_utf8(bytes@) ==> r@ == decode_utf8(bytes@),
{
    String::from_utf8_lossy(bytes).into_owned()
}

/// The text shown for a process that ran: its error text whenever that is not
/// empty, else its output text.
pub open spec fn chosen_output(stdout: Seq<char>, stderr: Seq<char>) -> Seq<char> {
    if stderr.len() > 0 {
        stderr
    } else {
        stdout
    }
}

/// Picks the text shown for a process that ran, from its decoded output and
/// error texts. Any error text wins, and the output is then dropped, even
/// when the process succeeded.
pub fn pick_output(stdout: String, stderr: String) -> (r: String)
    ensures
        r@ == chosen_output(stdout@, stderr@),
{
    if stderr.as_str().is_empty() {
        stdout
    } else {
        stderr
    }
}

/// The report of running a process: for a process that ran, its decoded error
/// text when that is not empty, else its decoded output text; for one that
/// could not be started, the failure prefix followed by the system's message.
pub fn command_report(run: Result<CapturedOutput, String>) -> (r: String)
    ensures
        r@ == match run {
            Ok(captured) => chosen_output(
                lossy_text(captured.stdout@),
                lossy_text(captured.stderr@),
            ),
            Err(message) => run_failure_prefix() + message@,
        },
        run is Ok && valid_utf8(run->Ok_0.stdout@) && valid_utf8(run->Ok_0.stderr@) ==> r@
            == chosen_output(decode_utf8(run->Ok_0.stdout@), decode_utf8(run->Ok_0.stderr@)),
{
    match run {
        Ok(captured) => {
            let stdout = decode_lossy(&captured.stdout);
            let stderr = decode_lossy(&captured.stderr);
            pick_output(stdout, stderr)
        },
        Err(message) => {
            let mut r = String::from_str("Error executing command: ");
            r.append(message.as_str());
            r
        },
    }
}

} // verus!
