//! Transport selection: given the execution mode, shapes every logical
//! operation (status query, bundle info, install, reboot, file copy) into a
//! fully resolved command invocation, either run directly on the local host
//! or wrapped in a secure-shell invocation against the remote device.

use vstd::prelude::*;

verus! {

/// How commands reach their execution target: a remote device over a secure
/// shell (Development, with host and password), or the local host directly
/// (Production). Set once at construction, never mutated.
#[derive(Clone)]
pub enum RaucMode {
    Development { ssh_host: String, ssh_password: String },
    Production,
}

/// A fully resolved, transport-aware command invocation: a program name and
/// its argument vector, ready to be handed to a process spawner.
#[derive(Debug)]
pub struct CommandSpec {
    pub program: String,
    pub args: Vec<String>,
}

/// The client object: holds the execution mode for its entire lifetime.
#[derive(Clone)]
pub struct RaucClient {
    pub mode: RaucMode,
}

impl RaucMode {
    /// Chooses the mode from optional secure-shell settings: both present
    /// selects Development (remote execution), anything else Production.
    pub fn select(ssh_host: Option<String>, ssh_password: Option<String>) -> (r: RaucMode)
        ensures
            match (ssh_host, ssh_password) {
                (Some(h), Some(p)) => r == (RaucMode::Development {
                    ssh_host: h,
                    ssh_password: p,
                }),
                _ => r == RaucMode::Production,
            },
    {
        match (ssh_host, ssh_password) {
            (Some(h), Some(p)) => RaucMode::Development { ssh_host: h, ssh_password: p },
            _ => RaucMode::Production,
        }
    }
}

/// The secure-shell option vector that disables host-key verification: the
/// remote endpoint is a managed device, not an interactive trust boundary.
pub open spec fn ssh_option_args() -> Seq<Seq<char>> {
    seq!["-o"@, "StrictHostKeyChecking=no"@, "-o"@, "UserKnownHostsFile=/dev/null"@]
}

/// Arguments of the transport program up to (and including) the host: the
/// password for non-interactive authentication, the shell subcommand, the
/// host-key options, then the target host.
pub open spec fn ssh_base_args(host: Seq<char>, password: Seq<char>) -> Seq<Seq<char>> {
    seq!["-p"@, password, "ssh"@] + ssh_option_args() + seq![host]
}

/// Full argument vector of the transport program for running `remote_args`
/// on `host`.
pub open spec fn ssh_wrapped_args(
    host: Seq<char>,
    password: Seq<char>,
    remote_args: Seq<Seq<char>>,
) -> Seq<Seq<char>> {
    ssh_base_args(host, password) + remote_args
}

/// The copy destination in `host:path` form.
pub open spec fn scp_target(host: Seq<char>, remote_path: Seq<char>) -> Seq<char> {
    (host + ":"@) + remote_path
}

/// Argument vector of the transport program for copying `local_path` to
/// `remote_path` on `host`, preserving mode and timestamps.
pub open spec fn scp_args(
    host: Seq<char>,
    password: Seq<char>,
    local_path: Seq<char>,
    remote_path: Seq<char>,
) -> Seq<Seq<char>> {
    seq!["-p"@, password, "scp"@, "-p"@] + ssh_option_args() + seq![
        local_path,
        scp_target(host, remote_path),
    ]
}

fn push_lit(args: &mut Vec<String>, s: &str)
    ensures
        final(args).deep_view() == old(args).deep_view().push(s@),
{
    args.push(String::from_str(s));
    proof {
        assert(args.deep_view() =~= old(args).deep_view().push(s@));
    }
}

fn push_string(args: &mut Vec<String>, s: &String)
    ensures
        final(args).deep_view() == old(args).deep_view().push(s@),
{
    args.push(s.clone());
    proof {
        assert(args.deep_view() =~= old(args).deep_view().push(s@));
    }
}

pub(crate) fn build_ssh_spec(
    ssh_host: &String,
    ssh_password: &String,
    remote_args: &Vec<String>,
) -> (r: CommandSpec)
    ensures
        r.program@ == "sshpass"@,
        r.args.deep_view() == ssh_wrapped_args(
            ssh_host@,
            ssh_password@,
            remote_args.deep_view(),
        ),
{
    let mut args: Vec<String> = Vec::new();
    push_lit(&mut args, "-p");
    push_string(&mut args, ssh_password);
    push_lit(&mut args, "ssh");
    push_lit(&mut args, "-o");
    push_lit(&mut args, "StrictHostKeyChecking=no");
    push_lit(&mut args, "-o");
    push_lit(&mut args, "UserKnownHostsFile=/dev/null");
    push_string(&mut args, ssh_host);
    proof {
        assert(args.deep_view() =~= ssh_base_args(ssh_host@, ssh_password@));
    }
    let mut i: usize = 0;
    while i < remote_args.len()
        invariant
            0 <= i <= remote_args.len(),
            args.deep_view() == ssh_base_args(ssh_host@, ssh_password@)
                + remote_args.deep_view().take(i as int),
        decreases remote_args.len() - i,
    {
        push_string(&mut args, &remote_args[i]);
        proof {
            assert(args.deep_view() =~= ssh_base_args(ssh_host@, ssh_password@)
                + remote_args.deep_view().take(i as int + 1));
        }
        i = i + 1;
    }
    proof {
        assert(remote_args.deep_view().take(remote_args.len() as int) =~= remote_args.deep_view());
    }
    CommandSpec { program: String::from_str("sshpass"), args }
}

pub(crate) fn build_scp_spec(
    ssh_host: &String,
    ssh_password: &String,
    local_path: &str,
    remote_path: &str,
) -> (r: CommandSpec)
    ensures
        r.program@ == "sshpass"@,
        r.args.deep_view() == scp_args(ssh_host@, ssh_password@, local_path@, remote_path@),
{
    let mut args: Vec<String> = Vec::new();
    push_lit(&mut args, "-p");
    push_string(&mut args, ssh_password);
    push_lit(&mut args, "scp");
    push_lit(&mut args, "-p");
    push_lit(&mut args, "-o");
    push_lit(&mut args, "StrictHostKeyChecking=no");
    push_lit(&mut args, "-o");
    push_lit(&mut args, "UserKnownHostsFile=/dev/null");
    push_lit(&mut args, local_path);
    let target = ssh_host.clone().concat(":").concat(remote_path);
    push_string(&mut args, &target);
    proof {
        assert(args.deep_view() =~= scp_args(ssh_host@, ssh_password@, local_path@, remote_path@));
    }
    CommandSpec { program: String::from_str("sshpass"), args }
}

impl RaucClient {
    /// Wraps the mode; the mode is shared read-only by every operation.
    pub fn new(mode: RaucMode) -> (r: Self)
        ensures
            r.mode == mode,
    {
        RaucClient { mode }
    }

    /// Command shape for running `remote_args` on the remote target over the
    /// secure shell. Asking for a remote invocation in Production mode is a
    /// caller contract violation, reported as `Err`.
    pub fn ssh_command_spec(&self, remote_args: &Vec<String>) -> (r: Result<CommandSpec, String>)
        ensures
            match self.mode {
                RaucMode::Development { ssh_host, ssh_password } => {
                    &&& r is Ok
                    &&& r->Ok_0.program@ == "sshpass"@
                    &&& r->Ok_0.args.deep_view() == ssh_wrapped_args(
                        ssh_host@,
                        ssh_password@,
                        remote_args.deep_view(),
                    )
                },
                RaucMode::Production => {
                    &&& r is Err
                    &&& r->Err_0@ == "SSH command called in production mode"@
                },
            },
    {
        match &self.mode {
            RaucMode::Development { ssh_host, ssh_password } => Ok(
                build_ssh_spec(ssh_host, ssh_password, remote_args),
            ),
            RaucMode::Production => Err(String::from_str("SSH command called in production mode")),
        }
    }

    /// Command shape for copying `local_path` to `remote_path` on the remote
    /// target. Production mode needs no copy, so asking for one is a caller
    /// contract violation, reported as `Err`.
    pub fn scp_command_spec(&self, local_path: &str, remote_path: &str) -> (r: Result<
        CommandSpec,
        String,
    >)
        ensures
            match self.mode {
                RaucMode::Development { ssh_host, ssh_password } => {
                    &&& r is Ok
                    &&& r->Ok_0.program@ == "sshpass"@
                    &&& r->Ok_0.args.deep_view() == scp_args(
                        ssh_host@,
                        ssh_password@,
                        local_path@,
                        remote_path@,
                    )
                },
                RaucMode::Production => {
                    &&& r is Err
                    &&& r->Err_0@ == "SCP command called in production mode"@
                },
            },
    {
        match &self.mode {
            RaucMode::Development { ssh_host, ssh_password } => Ok(
                build_scp_spec(ssh_host, ssh_password, local_path, remote_path),
            ),
            RaucMode::Production => Err(String::from_str("SCP command called in production mode")),
        }
    }

    /// Command shape for running the update tool with `args`: wrapped in the
    /// secure shell in Development mode, invoked directly in Production mode.
    pub fn rauc_command_spec(&self, args: &Vec<String>) -> (r: CommandSpec)
        ensures
            match self.mode {
                RaucMode::Development { ssh_host, ssh_password } => {
                    &&& r.program@ == "sshpass"@
                    &&& r.args.deep_view() == ssh_wrapped_args(
                        ssh_host@,
                        ssh_password@,
                        seq!["rauc"@] + args.deep_view(),
                    )
                },
                RaucMode::Production => {
                    &&& r.program@ == "rauc"@
                    &&& r.args.deep_view() == args.deep_view()
                },
            },
    {
        match &self.mode {
            RaucMode::Development { ssh_host, ssh_password } => {
                let mut remote: Vec<String> = Vec::new();
                push_lit(&mut remote, "rauc");
                let mut i: usize = 0;
                while i < args.len()
                    invariant
                        0 <= i <= args.len(),
                        remote.deep_view() == seq!["rauc"@] + args.deep_view().take(i as int),
                    decreases args.len() - i,
                {
                    push_string(&mut remote, &args[i]);
                    proof {
                        assert(remote.deep_view() =~= seq!["rauc"@] + args.deep_view().take(
                            i as int + 1,
                        ));
                    }
                    i = i + 1;
                }
                proof {
                    assert(args.deep_view().take(args.len() as int) =~= args.deep_view());
                }
                build_ssh_spec(ssh_host, ssh_password, &remote)
            },
            RaucMode::Production => {
                let mut direct: Vec<String> = Vec::new();
                let mut i: usize = 0;
                while i < args.len()
                    invariant
                        0 <= i <= args.len(),
                        direct.deep_view() == args.deep_view().take(i as int),
                    decreases args.len() - i,
                {
                    push_string(&mut direct, &args[i]);
                    proof {
                        assert(direct.deep_view() =~= args.deep_view().take(i as int + 1));
                    }
                    i = i + 1;
                }
                proof {
                    assert(args.deep_view().take(args.len() as int) =~= args.deep_view());
                }
                CommandSpec { program: String::from_str("rauc"), args: direct }
            },
        }
    }

    /// Command shape of the status query: the update tool's status report in
    /// structured form.
    pub fn status_command_spec(&self) -> (r: CommandSpec)
        ensures
            match self.mode {
                RaucMode::Development { ssh_host, ssh_password } => {
                    &&& r.program@ == "sshpass"@
                    &&& r.args.deep_view() == ssh_wrapped_args(
                        ssh_host@,
                        ssh_password@,
                        seq!["rauc"@, "status"@, "--output-format=json"@],
                    )
                },
                RaucMode::Production => {
                    &&& r.program@ == "rauc"@
                    &&& r.args.deep_view() == seq!["status"@, "--output-format=json"@]
                },
            },
    {
        let mut args: Vec<String> = Vec::new();
        push_lit(&mut args, "status");
        push_lit(&mut args, "--output-format=json");
        proof {
            assert(args.deep_view() =~= seq!["status"@, "--output-format=json"@]);
            assert(seq!["rauc"@] + args.deep_view() =~= seq![
                "rauc"@,
                "status"@,
                "--output-format=json"@,
            ]);
        }
        self.rauc_command_spec(&args)
    }

    /// Command shape of the bundle inspection query for `bundle_path`.
    pub fn bundle_info_command_spec(&self, bundle_path: &str) -> (r: CommandSpec)
        ensures
            match self.mode {
                RaucMode::Development { ssh_host, ssh_password } => {
                    &&& r.program@ == "sshpass"@
                    &&& r.args.deep_view() == ssh_wrapped_args(
                        ssh_host@,
                        ssh_password@,
                        seq!["rauc"@, "info"@, "--output-format=json"@, bundle_path@],
                    )
                },
                RaucMode::Production => {
                    &&& r.program@ == "rauc"@
                    &&& r.args.deep_view() == seq!["info"@, "--output-format=json"@, bundle_path@]
                },
            },
    {
        let mut args: Vec<String> = Vec::new();
        push_lit(&mut args, "info");
        push_lit(&mut args, "--output-format=json");
        push_lit(&mut args, bundle_path);
        proof {
            assert(args.deep_view() =~= seq!["info"@, "--output-format=json"@, bundle_path@]);
            assert(seq!["rauc"@] + args.deep_view() =~= seq![
                "rauc"@,
                "info"@,
                "--output-format=json"@,
                bundle_path@,
            ]);
        }
        self.rauc_command_spec(&args)
    }

    /// Command shape of the long-running install of `bundle_path`, paired
    /// with a short description of the chosen transport for diagnostics.
    pub fn install_command_spec(&self, bundle_path: &str) -> (r: (CommandSpec, String))
        ensures
            match self.mode {
                RaucMode::Development { ssh_host, ssh_password } => {
                    &&& r.0.program@ == "sshpass"@
                    &&& r.0.args.deep_view() == ssh_wrapped_args(
                        ssh_host@,
                        ssh_password@,
                        seq!["rauc"@, "install"@, bundle_path@],
                    )
                    &&& r.1@ == "ssh install"@
                },
                RaucMode::Production => {
                    &&& r.0.program@ == "rauc"@
                    &&& r.0.args.deep_view() == seq!["install"@, bundle_path@]
                    &&& r.1@ == "local install"@
                },
            },
    {
        let mut args: Vec<String> = Vec::new();
        push_lit(&mut args, "install");
        push_lit(&mut args, bundle_path);
        proof {
            assert(args.deep_view() =~= seq!["install"@, bundle_path@]);
            assert(seq!["rauc"@] + args.deep_view() =~= seq!["rauc"@, "install"@, bundle_path@]);
        }
        let spec = self.rauc_command_spec(&args);
        let description = match &self.mode {
            RaucMode::Development { .. } => String::from_str("ssh install"),
            RaucMode::Production => String::from_str("local install"),
        };
        (spec, description)
    }

    /// Command shape of the reboot operation: over the secure shell in
    /// Development mode, the local reboot binary in Production mode.
    pub fn reboot_command_spec(&self) -> (r: CommandSpec)
        ensures
            match self.mode {
                RaucMode::Development { ssh_host, ssh_password } => {
                    &&& r.program@ == "sshpass"@
                    &&& r.args.deep_view() == ssh_wrapped_args(
                        ssh_host@,
                        ssh_password@,
                        seq!["reboot"@],
                    )
                },
                RaucMode::Production => {
                    &&& r.program@ == "reboot"@
                    &&& r.args.deep_view() == Seq::<Seq<char>>::empty()
                },
            },
    {
        match &self.mode {
            RaucMode::Development { ssh_host, ssh_password } => {
                let mut remote: Vec<String> = Vec::new();
                push_lit(&mut remote, "reboot");
                proof {
                    assert(remote.deep_view() =~= seq!["reboot"@]);
                }
                build_ssh_spec(ssh_host, ssh_password, &remote)
            },
            RaucMode::Production => {
                let args: Vec<String> = Vec::new();
                proof {
                    assert(args.deep_view() =~= Seq::<Seq<char>>::empty());
                }
                CommandSpec { program: String::from_str("reboot"), args }
            },
        }
    }
}

} // verus!
