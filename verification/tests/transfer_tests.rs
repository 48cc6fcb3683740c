use rauc_engine::decimal::{parse_u64, trim_spaces, u64_to_dec};
use rauc_engine::runner::CommandResult;
use rauc_engine::transfer::{
    check_copy, check_mkdir, parent_directory, plan_copy, verify_transfer, CopyPlan,
    TransferError,
};
use rauc_engine::transport::{RaucClient, RaucMode};

fn finished(exit_success: bool, stdout: &str, stderr: &str) -> CommandResult {
    CommandResult {
        exit_success,
        stdout: stdout.to_string(),
        stderr: stderr.to_string(),
    }
}

#[test]
fn parse_u64_reads_digit_strings() {
    assert_eq!(parse_u64("0"), Some(0));
    assert_eq!(parse_u64("12345"), Some(12345));
    assert_eq!(parse_u64("007"), Some(7));
    assert_eq!(parse_u64("18446744073709551615"), Some(u64::MAX));
}

#[test]
fn parse_u64_rejects_non_numbers_and_overflow() {
    assert_eq!(parse_u64(""), None);
    assert_eq!(parse_u64("12a"), None);
    assert_eq!(parse_u64("+5"), None);
    assert_eq!(parse_u64("-5"), None);
    assert_eq!(parse_u64("18446744073709551616"), None);
    assert_eq!(parse_u64("99999999999999999999"), None);
}

#[test]
fn decimal_rendering_round_trips() {
    assert_eq!(u64_to_dec(0), "0");
    assert_eq!(u64_to_dec(10), "10");
    assert_eq!(u64_to_dec(987654), "987654");
    assert_eq!(u64_to_dec(u64::MAX), "18446744073709551615");
    assert_eq!(parse_u64(&u64_to_dec(424242)), Some(424242));
}

#[test]
fn trim_strips_surrounding_whitespace() {
    assert_eq!(trim_spaces(" 42\n"), "42");
    assert_eq!(trim_spaces("\t\r\n "), "");
    assert_eq!(trim_spaces("abc"), "abc");
    assert_eq!(trim_spaces("a b"), "a b");
}

#[test]
fn parent_directory_follows_separators() {
    assert_eq!(parent_directory("/data/bundles/up.raucb").unwrap(), "/data/bundles");
    assert_eq!(parent_directory("/up.raucb").unwrap(), "/");
    assert_eq!(parent_directory("up.raucb").unwrap(), "");
    assert_eq!(parent_directory("/"), None);
    assert_eq!(parent_directory(""), None);
}

#[test]
fn transfer_succeeds_when_sizes_match() {
    let stat = finished(true, "1024\n", "");
    let msg = verify_transfer(1024, "root@device", &stat).unwrap();
    assert_eq!(msg, "File copied to root@device successfully (1024 bytes verified)");
}

#[test]
fn transfer_fails_on_size_mismatch() {
    let stat = finished(true, "1023\n", "");
    match verify_transfer(1024, "root@device", &stat) {
        Err(TransferError::SizeMismatch { local, remote }) => {
            assert_eq!((local, remote), (1024, 1023));
        }
        _ => panic!("expected SizeMismatch"),
    }
}

#[test]
fn transfer_tolerates_missing_or_unparsable_stat() {
    // the remote stat failing, or printing something that is not a number,
    // degrades the confirmation but not the outcome
    let failed_stat = finished(false, "", "stat: cannot stat");
    let msg = verify_transfer(512, "root@device", &failed_stat).unwrap();
    assert_eq!(msg, "File copied to root@device successfully (512 bytes)");

    let garbled_stat = finished(true, "not a number\n", "");
    let msg = verify_transfer(512, "root@device", &garbled_stat).unwrap();
    assert_eq!(msg, "File copied to root@device successfully (512 bytes)");
}

#[test]
fn mkdir_and_copy_checks_surface_stderr() {
    assert!(check_mkdir(&finished(true, "", "")).is_ok());
    match check_mkdir(&finished(false, "", "mkdir: read-only")) {
        Err(TransferError::RemoteMkdirFailed { stderr }) => {
            assert_eq!(stderr, "mkdir: read-only");
        }
        _ => panic!("expected RemoteMkdirFailed"),
    }

    assert!(check_copy(&finished(true, "", "")).is_ok());
    match check_copy(&finished(false, "", "scp: no space")) {
        Err(TransferError::CopyFailed { stderr }) => {
            assert_eq!(stderr, "scp: no space");
        }
        _ => panic!("expected CopyFailed"),
    }
}

#[test]
fn error_messages_match_operator_wording() {
    let e = TransferError::SizeMismatch { local: 10, remote: 7 };
    assert_eq!(
        e.describe(),
        "File size mismatch after transfer: local 10 bytes, remote 7 bytes"
    );
    let e = TransferError::RemoteMkdirFailed { stderr: "denied".to_string() };
    assert_eq!(e.describe(), "Failed to create remote directory: denied");
    let e = TransferError::CopyFailed { stderr: "lost".to_string() };
    assert_eq!(e.describe(), "scp command failed: lost");
    let e = TransferError::LocalReadFailed { message: "gone".to_string() };
    assert_eq!(e.describe(), "Failed to read local file metadata: gone");
    assert_eq!(TransferError::InvalidTargetPath.describe(), "Invalid target path");
}

#[test]
fn production_copy_is_trivially_successful() {
    // whatever the filesystem holds, Production mode reports co-location
    let client = RaucClient::new(RaucMode::Production);
    match plan_copy(&client, "/no/such/file", "/no/such/target").unwrap() {
        CopyPlan::AlreadyLocal { message } => {
            assert_eq!(message, "File already on target system (production mode)");
        }
        CopyPlan::Transfer { .. } => panic!("production mode must not transfer"),
    }
}

#[test]
fn development_copy_plans_three_remote_commands() {
    let client = RaucClient::new(RaucMode::Development {
        ssh_host: "root@device".to_string(),
        ssh_password: "secret".to_string(),
    });
    match plan_copy(&client, "/tmp/up.raucb", "/data/bundles/up.raucb").unwrap() {
        CopyPlan::Transfer { mkdir, copy, stat } => {
            assert_eq!(mkdir.program, "sshpass");
            assert_eq!(mkdir.args.last().unwrap(), "mkdir -p /data/bundles");
            assert_eq!(copy.args.last().unwrap(), "root@device:/data/bundles/up.raucb");
            assert_eq!(stat.args.last().unwrap(), "stat -c %s /data/bundles/up.raucb");
        }
        CopyPlan::AlreadyLocal { .. } => panic!("development mode must transfer"),
    }
}

#[test]
fn development_copy_rejects_rootless_target() {
    let client = RaucClient::new(RaucMode::Development {
        ssh_host: "root@device".to_string(),
        ssh_password: "secret".to_string(),
    });
    assert!(matches!(
        plan_copy(&client, "/tmp/up.raucb", "/"),
        Err(TransferError::InvalidTargetPath)
    ));
}

#[test]
fn oversized_stat_output_counts_as_unparsable() {
    // a remote size too large for a machine size is unusable, so the
    // transfer still succeeds without size confirmation
    let stat = finished(true, "18446744073709551616\n", "");
    let msg = verify_transfer(5, "root@device", &stat).unwrap();
    assert_eq!(msg, "File copied to root@device successfully (5 bytes)");
}

#[test]
fn padded_stat_output_still_verifies() {
    let stat = finished(true, "  2048 \t\n", "");
    let msg = verify_transfer(2048, "root@device", &stat).unwrap();
    assert_eq!(msg, "File copied to root@device successfully (2048 bytes verified)");
}
