//! Interpretation of synchronous command runs. The process spawner outside
//! the library hands back a `CommandResult` — the terminal snapshot of one
//! short-lived execution — and the functions here decide what it means for
//! each operation: queries demand a success status and well-formed
//! structured output, while the reboot operation tolerates failure because
//! a successful remote reboot drops the connection mid-command.

use vstd::prelude::*;
use crate::transport::RaucMode;

verus! {

/// The terminal snapshot of a synchronous execution: whether the process
/// exited successfully, and its two captured output texts (decoded lossily
/// by the caller). Immutable once constructed.
pub struct CommandResult {
    pub exit_success: bool,
    pub stdout: String,
    pub stderr: String,
}

/// The error taxonomy of the execution core. `SpawnFailed`: the command
/// could not be launched at all. `ExecutionFailed`: it ran but exited with a
/// failure status; the captured standard error is surfaced. `ParseError`:
/// it succeeded but its structured output did not have the expected shape —
/// a tool contract mismatch, kept distinct from execution failure.
#[derive(Debug)]
pub enum ExecutionError {
    SpawnFailed { message: String },
    ExecutionFailed { stderr: String },
    ParseError { message: String },
}

/// Whether a text is a well-formed JSON document. The library checks this
/// through the JSON parser it trusts; nothing in the library defines the
/// grammar itself.
pub uninterp spec fn json_wf(s: Seq<char>) -> bool;

/// Relies on serde_json::from_str::<serde_json::Value>: it returns Ok
/// exactly on well-formed JSON text, and its verdict depends on the text
/// alone. On failure the parser's diagnostic is handed back as plain text.
#[verifier::external_body]
fn json_check(s: &str) -> (r: Option<String>)
    ensures
        r is None <==> json_wf(s@),
{
    match serde_json::from_str::<serde_json::Value>(s) {
        Ok(_) => None,
        Err(e) => Some(format!("{}", e)),
    }
}

/// What a plain update-tool run returns to its caller: the captured
/// standard output on success, the captured standard error wrapped in a
/// message on a failure exit status.
pub fn interpret_rauc_output(output: &CommandResult) -> (r: Result<String, String>)
    ensures
        output.exit_success <==> r is Ok,
        r is Ok ==> r->Ok_0@ == output.stdout@,
        r is Err ==> r->Err_0@ == "rauc command failed: "@ + output.stderr@,
{
    if output.exit_success {
        Ok(output.stdout.clone())
    } else {
        Err(String::from_str("rauc command failed: ").concat(output.stderr.as_str()))
    }
}

/// The status query's view of a finished run: the raw status report text,
/// checked to be well-formed JSON. A failure exit surfaces the captured
/// standard error as `ExecutionFailed`; a success exit with malformed JSON
/// is a `ParseError`, never an `ExecutionFailed`. Decoding the report into
/// its structured fields is the caller's step.
pub fn get_status(output: &CommandResult) -> (r: Result<String, ExecutionError>)
    ensures
        r is Ok <==> output.exit_success && json_wf(output.stdout@),
        r is Ok ==> r->Ok_0@ == output.stdout@,
        !output.exit_success ==> (r matches Err(ExecutionError::ExecutionFailed { stderr })
            && stderr@ == "rauc command failed: "@ + output.stderr@),
        output.exit_success && !json_wf(output.stdout@) ==> r matches Err(
            ExecutionError::ParseError { .. },
        ),
{
    if !output.exit_success {
        return Err(
            ExecutionError::ExecutionFailed {
                stderr: String::from_str("rauc command failed: ").concat(output.stderr.as_str()),
            },
        );
    }
    match json_check(output.stdout.as_str()) {
        None => Ok(output.stdout.clone()),
        Some(diag) => Err(
            ExecutionError::ParseError {
                message: String::from_str("Failed to parse rauc status JSON: ").concat(
                    diag.as_str(),
                ),
            },
        ),
    }
}

/// The bundle inspection query's view of a finished run; same decision shape
/// as the status query, with its own parse diagnostic.
pub fn get_bundle_info(output: &CommandResult) -> (r: Result<String, ExecutionError>)
    ensures
        r is Ok <==> output.exit_success && json_wf(output.stdout@),
        r is Ok ==> r->Ok_0@ == output.stdout@,
        !output.exit_success ==> (r matches Err(ExecutionError::ExecutionFailed { stderr })
            && stderr@ == "rauc command failed: "@ + output.stderr@),
        output.exit_success && !json_wf(output.stdout@) ==> r matches Err(
            ExecutionError::ParseError { .. },
        ),
{
    if !output.exit_success {
        return Err(
            ExecutionError::ExecutionFailed {
                stderr: String::from_str("rauc command failed: ").concat(output.stderr.as_str()),
            },
        );
    }
    match json_check(output.stdout.as_str()) {
        None => Ok(output.stdout.clone()),
        Some(diag) => Err(
            ExecutionError::ParseError {
                message: String::from_str("Failed to parse rauc bundle info JSON: ").concat(
                    diag.as_str(),
                ),
            },
        ),
    }
}

/// The reboot operation's outcome. `run` is what the spawner produced:
/// `Err` with a message if the reboot command could not be launched, `Ok`
/// with its terminal snapshot otherwise. A non-success exit status is
/// deliberately not a failure — a successful remote reboot drops the
/// connection, so the command's abrupt end is treated as likely success and
/// a neutral confirmation is returned.
pub fn reboot_outcome(mode: &RaucMode, run: &Result<CommandResult, String>) -> (r: Result<
    String,
    ExecutionError,
>)
    ensures
        r is Ok <==> run is Ok,
        run is Ok ==> r->Ok_0@ == (match mode {
            RaucMode::Development { .. } => "Reboot command sent"@,
            RaucMode::Production => "Reboot initiated"@,
        }),
        run is Err ==> (r matches Err(ExecutionError::SpawnFailed { message })
            && message@ == run->Err_0@),
{
    match run {
        Ok(_) => match mode {
            RaucMode::Development { .. } => Ok(String::from_str("Reboot command sent")),
            RaucMode::Production => Ok(String::from_str("Reboot initiated")),
        },
        Err(m) => Err(ExecutionError::SpawnFailed { message: m.clone() }),
    }
}

} // verus!
