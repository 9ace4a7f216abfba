use vstd::prelude::*;
use vstd::string::*;

verus! {

/// `nix::unistd::getuid`: the real user ID of the calling process. What it is
/// depends on the process, so nothing is stated of it.
#[verifier::external_body]
fn current_uid() -> u32 {
    nix::unistd::getuid().as_raw()
}

/// `nix::unistd::getgid`: the real group ID of the calling process. What it is
/// depends on the process, so nothing is stated of it.
#[verifier::external_body]
fn current_gid() -> u32 {
    nix::unistd::getgid().as_raw()
}

/// The process that a container runs: its command line, the host user and
/// group it is mapped from, its root directory on the host, whether it runs
/// detached, and its environment.
pub struct Process {
    pub cmd: String,
    pub host_uid: u32,
    pub host_gid: u32,
    pub cwd: String,
    pub become_daemon: bool,
    pub env: Vec<String>,
}

impl Process {
    /// A process for `cmd`, mapped from the host user `uid` and group `gid`.
    pub fn with_ids(cmd: &str, cwd: String, become_daemon: bool, env: Vec<String>, uid: u32, gid: u32) -> (p: Self)
        ensures
            p.cmd@ == cmd@,
            p.cwd == cwd,
            p.become_daemon == become_daemon,
            p.env == env,
            p.host_uid == uid,
            p.host_gid == gid,
    {
        Process { cwd, env, become_daemon, cmd: String::from_str(cmd), host_uid: uid, host_gid: gid }
    }

    /// A process for `cmd`, mapped from the user and group that run this
    /// program.
    pub fn new(cmd: &str, cwd: String, become_daemon: bool, env: Vec<String>) -> (p: Self)
        ensures
            p.cmd@ == cmd@,
            p.cwd == cwd,
            p.become_daemon == become_daemon,
            p.env == env,
    {
        let uid = current_uid();
        let gid = current_gid();
        Process::with_ids(cmd, cwd, become_daemon, env, uid, gid)
    }
}

} // verus!
