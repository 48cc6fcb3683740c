use rauc_engine::runner::{
    get_bundle_info, get_status, interpret_rauc_output, reboot_outcome, CommandResult,
    ExecutionError,
};
use rauc_engine::transport::RaucMode;

fn finished(exit_success: bool, stdout: &str, stderr: &str) -> CommandResult {
    CommandResult {
        exit_success,
        stdout: stdout.to_string(),
        stderr: stderr.to_string(),
    }
}

#[test]
fn successful_run_returns_stdout() {
    let r = interpret_rauc_output(&finished(true, "all good", ""));
    assert_eq!(r.unwrap(), "all good");
}

#[test]
fn failed_run_surfaces_stderr() {
    let r = interpret_rauc_output(&finished(false, "", "bundle not found"));
    assert_eq!(r.unwrap_err(), "rauc command failed: bundle not found");
}

#[test]
fn status_ok_on_valid_json() {
    let report = r#"{"compatible":"demo","variant":"a","slots":[]}"#;
    let r = get_status(&finished(true, report, ""));
    assert_eq!(r.unwrap(), report);
}

#[test]
fn status_malformed_json_is_parse_error_not_execution_failure() {
    // exit status 0 with malformed JSON: a contract mismatch, not a tool failure
    let r = get_status(&finished(true, "not json {", ""));
    match r {
        Err(ExecutionError::ParseError { message }) => {
            assert!(message.starts_with("Failed to parse rauc status JSON: "));
        }
        other => panic!("expected ParseError, got {:?}", result_kind(&other)),
    }
}

#[test]
fn status_failure_exit_is_execution_failure() {
    let r = get_status(&finished(false, "", "no rauc here"));
    match r {
        Err(ExecutionError::ExecutionFailed { stderr }) => {
            assert_eq!(stderr, "rauc command failed: no rauc here");
        }
        other => panic!("expected ExecutionFailed, got {:?}", result_kind(&other)),
    }
}

#[test]
fn bundle_info_mirrors_status_decision() {
    let report = r#"{"compatible":"demo","version":"1.0"}"#;
    assert_eq!(get_bundle_info(&finished(true, report, "")).unwrap(), report);

    match get_bundle_info(&finished(true, "[unterminated", "")) {
        Err(ExecutionError::ParseError { message }) => {
            assert!(message.starts_with("Failed to parse rauc bundle info JSON: "));
        }
        other => panic!("expected ParseError, got {:?}", result_kind(&other)),
    }
}

#[test]
fn reboot_tolerates_failure_exit() {
    let dev = RaucMode::Development {
        ssh_host: "root@device".to_string(),
        ssh_password: "secret".to_string(),
    };
    // the connection drops mid-command on a successful remote reboot, so a
    // failure exit status still counts as the command having been sent
    let dropped = Ok(finished(false, "", "connection closed"));
    assert_eq!(reboot_outcome(&dev, &dropped).unwrap(), "Reboot command sent");

    let clean = Ok(finished(true, "", ""));
    assert_eq!(
        reboot_outcome(&RaucMode::Production, &clean).unwrap(),
        "Reboot initiated"
    );
}

#[test]
fn reboot_spawn_failure_is_reported() {
    let failed: Result<CommandResult, String> =
        Err("Failed to execute reboot command: permission denied".to_string());
    match reboot_outcome(&RaucMode::Production, &failed) {
        Err(ExecutionError::SpawnFailed { message }) => {
            assert_eq!(message, "Failed to execute reboot command: permission denied");
        }
        other => panic!("expected SpawnFailed, got {:?}", result_kind(&other)),
    }
}

fn result_kind(r: &Result<String, ExecutionError>) -> &'static str {
    match r {
        Ok(_) => "Ok",
        Err(ExecutionError::SpawnFailed { .. }) => "SpawnFailed",
        Err(ExecutionError::ExecutionFailed { .. }) => "ExecutionFailed",
        Err(ExecutionError::ParseError { .. }) => "ParseError",
    }
}

#[test]
fn status_accepts_any_well_formed_json() {
    // well-formedness is this layer's whole check; schema decoding is the
    // caller's step
    assert_eq!(get_status(&finished(true, "null", "")).unwrap(), "null");
    assert_eq!(get_status(&finished(true, "[1,2]", "")).unwrap(), "[1,2]");
}
