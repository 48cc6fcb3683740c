//! The file-transfer verifier. In Production mode the bundle is already on
//! the target filesystem and the copy succeeds trivially. In Development
//! mode the bundle travels over the secure-shell copy primitive; the parent
//! directory is created first, and afterwards the remote file size is read
//! back and compared with the local one — a parsable mismatch is a failure,
//! while an unavailable or unparsable remote size degrades the confirmation
//! but not the outcome, since the transfer itself already succeeded.

use vstd::prelude::*;
use crate::decimal::{all_digits, dec_seq, dec_value, parse_u64, trim_spaces, trimmed, u64_to_dec};
use crate::runner::CommandResult;
use crate::transport::{
    build_scp_spec,
    build_ssh_spec,
    scp_args,
    ssh_wrapped_args,
    CommandSpec,
    RaucClient,
    RaucMode,
};

verus! {

/// What can go wrong while moving the bundle to the target: the local file
/// could not be read, the target path has no parent directory, the remote
/// directory could not be created, the copy itself failed, or the copied
/// file came out with a different size.
#[derive(Debug)]
pub enum TransferError {
    LocalReadFailed { message: String },
    InvalidTargetPath,
    RemoteMkdirFailed { stderr: String },
    CopyFailed { stderr: String },
    SizeMismatch { local: u64, remote: u64 },
}

impl TransferError {
    /// The operator-facing text of each failure.
    pub open spec fn message_spec(&self) -> Seq<char> {
        match self {
            TransferError::LocalReadFailed { message } => "Failed to read local file metadata: "@
                + message@,
            TransferError::InvalidTargetPath => "Invalid target path"@,
            TransferError::RemoteMkdirFailed { stderr } => "Failed to create remote directory: "@
                + stderr@,
            TransferError::CopyFailed { stderr } => "scp command failed: "@ + stderr@,
            TransferError::SizeMismatch { local, remote } => (((
            "File size mismatch after transfer: local "@ + dec_seq(*local as nat))
                + " bytes, remote "@) + dec_seq(*remote as nat)) + " bytes"@,
        }
    }

    /// Renders the failure as the operator-facing message.
    pub fn describe(&self) -> (r: String)
        ensures
            r@ == self.message_spec(),
    {
        match self {
            TransferError::LocalReadFailed { message } => String::from_str(
                "Failed to read local file metadata: ",
            ).concat(message.as_str()),
            TransferError::InvalidTargetPath => String::from_str("Invalid target path"),
            TransferError::RemoteMkdirFailed { stderr } => String::from_str(
                "Failed to create remote directory: ",
            ).concat(stderr.as_str()),
            TransferError::CopyFailed { stderr } => String::from_str("scp command failed: ").concat(
                stderr.as_str(),
            ),
            TransferError::SizeMismatch { local, remote } => String::from_str(
                "File size mismatch after transfer: local ",
            ).concat(u64_to_dec(*local).as_str()).concat(" bytes, remote ").concat(
                u64_to_dec(*remote).as_str(),
            ).concat(" bytes"),
        }
    }
}

/// Index of the last path separator, or -1 when there is none.
pub open spec fn last_slash(s: Seq<char>) -> int
    decreases s.len(),
{
    if s.len() == 0 {
        -1
    } else if s.last() == '/' {
        s.len() - 1
    } else {
        last_slash(s.drop_last())
    }
}

/// The parent directory of a path: the text before the last separator, `/`
/// for a direct child of the root, the empty text for a bare file name, and
/// nothing for the empty path or the root itself.
pub open spec fn parent_of(s: Seq<char>) -> Option<Seq<char>> {
    let k = last_slash(s);
    if s.len() == 0 {
        None
    } else if k == -1 {
        Some(Seq::empty())
    } else if k == 0 {
        if s.len() == 1 {
            None
        } else {
            Some("/"@)
        }
    } else {
        Some(s.take(k))
    }
}

proof fn lemma_last_slash_scan(s: Seq<char>, j: int)
    requires
        0 <= j <= s.len(),
        forall|k: int| j <= k < s.len() ==> s[k] != '/',
    ensures
        last_slash(s) == last_slash(s.take(j)),
    decreases s.len() - j,
{
    if j == s.len() {
        assert(s.take(j) =~= s);
    } else {
        assert(s.last() != '/');
        let t = s.drop_last();
        assert(forall|k: int| j <= k < t.len() ==> t[k] != '/');
        lemma_last_slash_scan(t, j);
        assert(t.take(j) =~= s.take(j));
    }
}

/// The parent directory of `path`, under the library's separator rule
/// (`parent_of`): `None` exactly when the path has no parent to create.
pub fn parent_directory(path: &str) -> (r: Option<String>)
    ensures
        r is Some <==> parent_of(path@) is Some,
        r is Some ==> r->0@ == parent_of(path@)->0,
{
    let n = path.unicode_len();
    if n == 0 {
        return None;
    }
    let mut j: usize = n;
    while j > 0 && path.get_char(j - 1) != '/'
        invariant
            0 <= j <= n,
            n == path@.len(),
            forall|k: int| j <= k < n ==> path@[k] != '/',
        decreases j,
    {
        j = j - 1;
    }
    proof {
        lemma_last_slash_scan(path@, j as int);
        if j == 0 {
            assert(path@.take(0) =~= Seq::<char>::empty());
            assert(last_slash(path@) == -1);
        } else {
            assert(path@.take(j as int).last() == path@[j as int - 1]);
            assert(last_slash(path@) == j - 1);
        }
    }
    if j == 0 {
        return Some(String::new());
    }
    let k = j - 1;
    if k == 0 {
        if n == 1 {
            None
        } else {
            Some(String::from_str("/"))
        }
    } else {
        let p = path.substring_char(0, k);
        proof {
            assert(path@.subrange(0, k as int) =~= path@.take(k as int));
        }
        Some(String::from_str(p))
    }
}

/// The remote shell command that creates the parent directory, idempotently.
pub fn mkdir_remote_command(parent: &str) -> (r: String)
    ensures
        r@ == "mkdir -p "@ + parent@,
{
    String::from_str("mkdir -p ").concat(parent)
}

/// The remote shell command that reports the copied file's size in bytes.
pub fn stat_remote_command(path: &str) -> (r: String)
    ensures
        r@ == "stat -c %s "@ + path@,
{
    String::from_str("stat -c %s ").concat(path)
}

/// Decision after the remote directory-creation run: a failure exit status
/// fails the transfer, carrying the captured standard error.
pub fn check_mkdir(output: &CommandResult) -> (r: Result<(), TransferError>)
    ensures
        r is Ok <==> output.exit_success,
        !output.exit_success ==> (r matches Err(TransferError::RemoteMkdirFailed { stderr })
            && stderr@ == output.stderr@),
{
    if output.exit_success {
        Ok(())
    } else {
        Err(TransferError::RemoteMkdirFailed { stderr: output.stderr.clone() })
    }
}

/// Decision after the copy run: a failure exit status fails the transfer,
/// carrying the captured standard error.
pub fn check_copy(output: &CommandResult) -> (r: Result<(), TransferError>)
    ensures
        r is Ok <==> output.exit_success,
        !output.exit_success ==> (r matches Err(TransferError::CopyFailed { stderr })
            && stderr@ == output.stderr@),
{
    if output.exit_success {
        Ok(())
    } else {
        Err(TransferError::CopyFailed { stderr: output.stderr.clone() })
    }
}

/// Confirmation text when the remote size was read back and matched.
pub open spec fn verified_message(host: Seq<char>, size: nat) -> Seq<char> {
    ((("File copied to "@ + host) + " successfully ("@) + dec_seq(size)) + " bytes verified)"@
}

/// Confirmation text when the remote size could not be read back: the
/// transfer still counts as a success, on the local size alone.
pub open spec fn unverified_message(host: Seq<char>, size: nat) -> Seq<char> {
    ((("File copied to "@ + host) + " successfully ("@) + dec_seq(size)) + " bytes)"@
}

/// Whether a remote stat run reported a usable size: it exited successfully
/// and printed, up to surrounding whitespace, a decimal number that fits in
/// a machine size.
pub open spec fn stat_reports_size(stat: CommandResult) -> bool {
    &&& stat.exit_success
    &&& trimmed(stat.stdout@).len() > 0
    &&& all_digits(trimmed(stat.stdout@))
    &&& dec_value(trimmed(stat.stdout@)) <= u64::MAX
}

/// The size a usable remote stat run reported.
pub open spec fn stat_reported_size(stat: CommandResult) -> nat {
    dec_value(trimmed(stat.stdout@))
}

/// Final decision of the transfer, from the local file size and the remote
/// stat run: the transfer fails exactly when the remote size is usable and
/// differs from the local one; an unavailable or unparsable remote size
/// yields a success without size confirmation.
pub fn verify_transfer(local_size: u64, ssh_host: &str, stat: &CommandResult) -> (r: Result<
    String,
    TransferError,
>)
    ensures
        r is Err <==> stat_reports_size(*stat) && stat_reported_size(*stat) != local_size as nat,
        r is Err ==> r == Err::<String, TransferError>(
            TransferError::SizeMismatch {
                local: local_size,
                remote: stat_reported_size(*stat) as u64,
            },
        ),
        stat_reports_size(*stat) && stat_reported_size(*stat) == local_size as nat ==> r is Ok
            && r->Ok_0@ == verified_message(ssh_host@, local_size as nat),
        !stat_reports_size(*stat) ==> r is Ok && r->Ok_0@ == unverified_message(
            ssh_host@,
            local_size as nat,
        ),
{
    if stat.exit_success {
        let t = trim_spaces(stat.stdout.as_str());
        match parse_u64(t) {
            Some(remote) => {
                if remote != local_size {
                    return Err(TransferError::SizeMismatch { local: local_size, remote });
                }
                return Ok(
                    String::from_str("File copied to ").concat(ssh_host).concat(
                        " successfully (",
                    ).concat(u64_to_dec(remote).as_str()).concat(" bytes verified)"),
                );
            },
            None => {},
        }
    }
    Ok(
        String::from_str("File copied to ").concat(ssh_host).concat(" successfully (").concat(
            u64_to_dec(local_size).as_str(),
        ).concat(" bytes)"),
    )
}

/// How the copy operation proceeds: in Production mode the bundle is already
/// co-located and nothing runs; in Development mode three remote invocations
/// follow each other — create the parent directory, copy, read the size
/// back.
pub enum CopyPlan {
    AlreadyLocal { message: String },
    Transfer { mkdir: CommandSpec, copy: CommandSpec, stat: CommandSpec },
}

/// Plans the copy of `local_path` to `target_path`. Production mode always
/// succeeds trivially, whatever the filesystem holds, with a fixed
/// confirmation; Development mode fails only on a target path without a
/// parent directory, and otherwise yields the three command shapes to run.
pub fn plan_copy(client: &RaucClient, local_path: &str, target_path: &str) -> (r: Result<
    CopyPlan,
    TransferError,
>)
    ensures
        client.mode is Production ==> (r matches Ok(CopyPlan::AlreadyLocal { message })
            && message@ == "File already on target system (production mode)"@),
        (match client.mode {
            RaucMode::Development { ssh_host, ssh_password } => match parent_of(target_path@) {
                Option::None => r == Err::<CopyPlan, TransferError>(
                    TransferError::InvalidTargetPath,
                ),
                Option::Some(parent) => (r matches Ok(CopyPlan::Transfer { mkdir, copy, stat })
                    && mkdir.program@ == "sshpass"@ && mkdir.args.deep_view() == ssh_wrapped_args(
                    ssh_host@,
                    ssh_password@,
                    seq!["mkdir -p "@ + parent],
                ) && copy.program@ == "sshpass"@ && copy.args.deep_view() == scp_args(
                    ssh_host@,
                    ssh_password@,
                    local_path@,
                    target_path@,
                ) && stat.program@ == "sshpass"@ && stat.args.deep_view() == ssh_wrapped_args(
                    ssh_host@,
                    ssh_password@,
                    seq!["stat -c %s "@ + target_path@],
                )),
            },
            RaucMode::Production => true,
        }),
{
    match &client.mode {
        RaucMode::Production => Ok(
            CopyPlan::AlreadyLocal {
                message: String::from_str("File already on target system (production mode)"),
            },
        ),
        RaucMode::Development { ssh_host, ssh_password } => {
            let parent = match parent_directory(target_path) {
                Some(p) => p,
                None => {
                    return Err(TransferError::InvalidTargetPath);
                },
            };
            let mut mkdir_args: Vec<String> = Vec::new();
            mkdir_args.push(mkdir_remote_command(parent.as_str()));
            proof {
                assert(mkdir_args.deep_view() =~= seq![
                    "mkdir -p "@ + parent_of(target_path@)->0,
                ]);
            }
            let mkdir = build_ssh_spec(ssh_host, ssh_password, &mkdir_args);
            let copy = build_scp_spec(ssh_host, ssh_password, local_path, target_path);
            let mut stat_args: Vec<String> = Vec::new();
            stat_args.push(stat_remote_command(target_path));
            proof {
                assert(stat_args.deep_view() =~= seq!["stat -c %s "@ + target_path@]);
            }
            let stat = build_ssh_spec(ssh_host, ssh_password, &stat_args);
            Ok(CopyPlan::Transfer { mkdir, copy, stat })
        },
    }
}

} // verus!
