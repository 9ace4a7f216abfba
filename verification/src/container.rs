use vstd::prelude::*;
use vstd::string::*;

use rand::Rng;

use crate::image::Image;
use crate::plan::{action_views, clone_strings, string_views, Action, ActionView, Namespaces};
use crate::pids::{law_pidfile_reads_back, pidfile_of};
use crate::process::Process;
use crate::text::{concat_str, decimal, i32_to_decimal, signed_decimal, u32_to_decimal};

verus! {

#[verifier::external_type_specification]
#[verifier::external_body]
pub struct ExThreadRng(rand::rngs::ThreadRng);

/// `rand::thread_rng`: the generator of the current thread. Nothing is stated
/// of its state.
#[verifier::external_body]
fn thread_rng() -> rand::rngs::ThreadRng {
    rand::thread_rng()
}

/// Whether `c` is an ASCII letter or digit.
pub open spec fn is_alphanumeric(c: char) -> bool {
    ('A' <= c && c <= 'Z') || ('a' <= c && c <= 'z') || ('0' <= c && c <= '9')
}

/// `Rng::sample` with the `Alphanumeric` distribution of rand: a random byte
/// drawn from `A`-`Z`, `a`-`z` and `0`-`9`. Which one it is depends on the
/// generator; the contract states only that it is one of those.
#[verifier::external_body]
fn sample_alphanumeric(rng: &mut rand::rngs::ThreadRng) -> (b: u8)
    ensures
        is_alphanumeric(b as char),
{
    rng.sample(rand::distributions::Alphanumeric)
}

/// The characters of the bytes `draws`, in order.
pub open spec fn chars_of_bytes(draws: Seq<u8>) -> Seq<char> {
    draws.map_values(|b: u8| b as char)
}

/// A container ID made of the drawn bytes `draws`, one character each.
pub fn id_from_draws(draws: &Vec<u8>) -> (id: String)
    ensures
        id@ == chars_of_bytes(draws@),
{
    let mut id = String::new();
    let mut k: usize = 0;
    while k < draws.len()
        invariant
            k <= draws@.len(),
            id@ == chars_of_bytes(draws@.take(k as int)),
        decreases draws.len() - k,
    {
        id.push(draws[k] as char);
        assert(draws@.take(k + 1) =~= draws@.take(k as int).push(draws@[k as int]));
        assert(chars_of_bytes(draws@.take(k + 1)) =~= chars_of_bytes(draws@.take(k as int)).push(draws@[k as int] as char));
        k = k + 1;
    }
    assert(draws@.take(draws@.len() as int) =~= draws@);
    id
}

/// A random container ID: eight ASCII letters or digits, drawn one by one.
fn random_id() -> (id: String)
    ensures
        id@.len() == 8,
        forall|i: int| 0 <= i < 8 ==> is_alphanumeric(#[trigger] id@[i]),
{
    let mut rng = thread_rng();
    let mut draws: Vec<u8> = Vec::new();
    while draws.len() < 8
        invariant
            draws@.len() <= 8,
            forall|i: int| 0 <= i < draws@.len() ==> is_alphanumeric(#[trigger] draws@[i] as char),
        decreases 8 - draws@.len(),
    {
        let b = sample_alphanumeric(&mut rng);
        draws.push(b);
    }
    let id = id_from_draws(&draws);
    assert forall|i: int| 0 <= i < 8 implies is_alphanumeric(#[trigger] id@[i]) by {
        assert(id@[i] == draws@[i] as char);
    }
    id
}

/// A container: its ID, which also names its host name, and the image it is
/// built from, if any.
pub struct Container {
    pub id: String,
    pub image: Option<Image>,
}

/// How the container's first process ended, as `waitpid(2)` reports it.
#[derive(PartialEq, Eq, Structural, Debug, Clone, Copy)]
pub enum WaitOutcome {
    Exited,
    Signaled,
    Other,
}

/// The line of a user or group ID map that maps ID 0 inside the namespace to
/// `id` outside it, one ID long.
pub open spec fn id_map_line(id: u32) -> Seq<char> {
    "0 "@ + decimal(id as nat) + " 1"@
}

/// The namespaces that a container leaves before its first process starts.
pub open spec fn container_namespaces() -> Namespaces {
    Namespaces { pid: true, ipc: false, uts: true, mount: true, net: false, user: true }
}

/// The work that readies the host for a container rooted at `cwd`: fetch and
/// unpack the image with the host's name service files when there is an
/// image, detach when asked to, leave the namespaces, and map the host user
/// and group to root, denying `setgroups` before the group map.
pub open spec fn prepare_steps(
    has_image: bool,
    cwd: Seq<char>,
    become_daemon: bool,
    uid: u32,
    gid: u32,
) -> Seq<ActionView> {
    let image_steps = if has_image {
        seq![
            ActionView::PullImage,
            ActionView::BuildImage { dst: cwd },
            ActionView::CopyFile { from: "/etc/hosts"@, to: cwd + "/etc/hosts"@ },
            ActionView::CopyFile { from: "/etc/resolv.conf"@, to: cwd + "/etc/resolv.conf"@ },
        ]
    } else {
        Seq::empty()
    };
    let daemon_steps = if become_daemon {
        seq![ActionView::Daemonize]
    } else {
        Seq::empty()
    };
    image_steps + daemon_steps + seq![
        ActionView::Unshare { namespaces: container_namespaces() },
        ActionView::WriteFile { path: "/proc/self/uid_map"@, contents: id_map_line(uid) },
        ActionView::WriteFile { path: "/proc/self/setgroups"@, contents: "deny"@ },
        ActionView::WriteFile { path: "/proc/self/gid_map"@, contents: id_map_line(gid) },
    ]
}

/// The work of the container's first process: enter its root, take its ID as
/// host name, mount proc and run the command through `/bin/sh -c`.
pub open spec fn child_steps(id: Seq<char>, cwd: Seq<char>, cmd: Seq<char>, env: Seq<Seq<char>>) -> Seq<ActionView> {
    seq![
        ActionView::Chroot { path: cwd },
        ActionView::Chdir { path: "/"@ },
        ActionView::SetHostname { name: id },
        ActionView::CreateDirAll { path: "proc"@, fatal: false },
        ActionView::MountProc,
        ActionView::Exec { program: "/bin/sh"@, args: seq!["/bin/sh"@, "-c"@, cmd], env: env },
    ]
}

/// The pidfile of the container `id` in the directory `pids_dir`.
pub open spec fn pidfile_path_of(pids_dir: Seq<char>, id: Seq<char>) -> Seq<char> {
    pids_dir + "/"@ + id + ".pid"@
}

/// The work of the host once the container's first process `child` runs:
/// make the pid directory and record the process in the container's pidfile.
pub open spec fn parent_steps(pids_dir: Seq<char>, id: Seq<char>, child: i32) -> Seq<ActionView> {
    seq![
        ActionView::CreateDirAll { path: pids_dir, fatal: true },
        ActionView::WriteFile {
            path: pidfile_path_of(pids_dir, id),
            contents: signed_decimal(child as int),
        },
    ]
}

/// The work of the host once the first process ended: an exit removes the
/// pidfile, a signal leaves it, anything else is reported.
pub open spec fn after_wait_steps(pids_dir: Seq<char>, id: Seq<char>, outcome: WaitOutcome) -> Seq<ActionView> {
    match outcome {
        WaitOutcome::Exited => seq![ActionView::RemoveFile { path: pidfile_path_of(pids_dir, id) }],
        WaitOutcome::Signaled => Seq::empty(),
        WaitOutcome::Other => seq![ActionView::Report { message: "Unexpected exit."@ }],
    }
}

/// Where the host stands while it runs a container.
#[derive(PartialEq, Eq, Structural, Debug, Clone, Copy)]
pub enum HostState {
    /// The container's first process is being forked.
    Forking,
    /// The first process `child` runs; the host waits for it to end.
    Waiting { child: i32 },
    /// The first process has ended and the host has cleaned up.
    Finished,
}

/// What the host learns while it runs a container.
#[derive(PartialEq, Eq, Structural, Debug, Clone, Copy)]
pub enum HostEvent {
    /// The first process was forked as `child`.
    Forked { child: i32 },
    /// The first process ended with `outcome`.
    ChildEnded { outcome: WaitOutcome },
}

/// The next state of the host and its work, from its state and what it
/// learns: once the child is forked its pidfile is recorded and the host waits;
/// once the child ends the host cleans up; anything else changes nothing.
pub open spec fn host_transition(pids_dir: Seq<char>, id: Seq<char>, state: HostState, event: HostEvent) -> (HostState, Seq<ActionView>) {
    match (state, event) {
        (HostState::Forking, HostEvent::Forked { child }) => (
            HostState::Waiting { child },
            parent_steps(pids_dir, id, child),
        ),
        (HostState::Waiting { .. }, HostEvent::ChildEnded { outcome }) => (
            HostState::Finished,
            after_wait_steps(pids_dir, id, outcome),
        ),
        _ => (state, Seq::empty()),
    }
}

fn id_map(id: u32) -> (line: String)
    ensures
        line@ == id_map_line(id),
{
    let digits = u32_to_decimal(id);
    let line = concat_str("0 ", digits.as_str());
    concat_str(line.as_str(), " 1")
}

impl Container {
    /// A container with the ID `path`, or with eight random letters and digits
    /// as ID when `path` is `None`.
    pub fn new(image: Option<Image>, path: Option<&str>) -> (c: Container)
        ensures
            c.image == image,
            match path {
                Some(p) => c.id@ == p@,
                None => c.id@.len() == 8 && forall|i: int|
                    0 <= i < 8 ==> is_alphanumeric(#[trigger] c.id@[i]),
            },
    {
        let id = match path {
            Some(p) => String::from_str(p),
            None => random_id(),
        };
        Container { id, image }
    }

    /// The pidfile of this container in `pids_dir`.
    pub fn pidfile_path(&self, pids_dir: &str) -> (path: String)
        ensures
            path@ == pidfile_path_of(pids_dir@, self.id@),
    {
        let p = concat_str(pids_dir, "/");
        let p = concat_str(p.as_str(), self.id.as_str());
        concat_str(p.as_str(), ".pid")
    }

    /// The work that readies the host before `process` runs in this container.
    pub fn prepare(&self, process: &Process) -> (steps: Vec<Action>)
        ensures
            action_views(steps@) == prepare_steps(
                self.image is Some,
                process.cwd@,
                process.become_daemon,
                process.host_uid,
                process.host_gid,
            ),
            action_views(steps@).contains(ActionView::Daemonize) <==> process.become_daemon,
            action_views(steps@).contains(ActionView::PullImage) <==> self.image is Some,
    {
        let mut steps: Vec<Action> = Vec::new();
        if self.image.is_some() {
            steps.push(Action::PullImage);
            steps.push(Action::BuildImage { dst: process.cwd.clone() });
            steps.push(Action::CopyFile {
                from: String::from_str("/etc/hosts"),
                to: concat_str(process.cwd.as_str(), "/etc/hosts"),
            });
            steps.push(Action::CopyFile {
                from: String::from_str("/etc/resolv.conf"),
                to: concat_str(process.cwd.as_str(), "/etc/resolv.conf"),
            });
        }
        if process.become_daemon {
            steps.push(Action::Daemonize);
        }
        steps.push(Action::Unshare {
            namespaces: Namespaces { pid: true, ipc: false, uts: true, mount: true, net: false, user: true },
        });
        steps.push(Action::WriteFile {
            path: String::from_str("/proc/self/uid_map"),
            contents: id_map(process.host_uid),
        });
        steps.push(Action::WriteFile {
            path: String::from_str("/proc/self/setgroups"),
            contents: String::from_str("deny"),
        });
        steps.push(Action::WriteFile {
            path: String::from_str("/proc/self/gid_map"),
            contents: id_map(process.host_gid),
        });
        assert(action_views(steps@) =~= prepare_steps(
            self.image is Some,
            process.cwd@,
            process.become_daemon,
            process.host_uid,
            process.host_gid,
        ));
        proof {
            law_prepare_follows_the_request(
                self.image is Some,
                process.cwd@,
                process.become_daemon,
                process.host_uid,
                process.host_gid,
            );
        }
        steps
    }

    /// The work of the first process of this container, once forked.
    pub fn child_steps(&self, process: &Process) -> (steps: Vec<Action>)
        ensures
            action_views(steps@) == child_steps(self.id@, process.cwd@, process.cmd@, string_views(process.env@)),
    {
        let mut args: Vec<String> = Vec::new();
        args.push(String::from_str("/bin/sh"));
        args.push(String::from_str("-c"));
        args.push(process.cmd.clone());
        let mut steps: Vec<Action> = Vec::new();
        steps.push(Action::Chroot { path: process.cwd.clone() });
        steps.push(Action::Chdir { path: String::from_str("/") });
        steps.push(Action::SetHostname { name: self.id.clone() });
        steps.push(Action::CreateDirAll { path: String::from_str("proc"), fatal: false });
        steps.push(Action::MountProc);
        steps.push(Action::Exec {
            program: String::from_str("/bin/sh"),
            args,
            env: clone_strings(&process.env),
        });
        assert(string_views(args@) =~= seq!["/bin/sh"@, "-c"@, process.cmd@]);
        assert(action_views(steps@) =~= child_steps(self.id@, process.cwd@, process.cmd@, string_views(process.env@)));
        steps
    }

    /// The work of the host once the first process `child` of this container
    /// runs, with pidfiles kept in `pids_dir`.
    pub fn parent_steps(&self, pids_dir: &str, child: i32) -> (steps: Vec<Action>)
        ensures
            action_views(steps@) == parent_steps(pids_dir@, self.id@, child),
    {
        let mut steps: Vec<Action> = Vec::new();
        steps.push(Action::CreateDirAll { path: String::from_str(pids_dir), fatal: true });
        steps.push(Action::WriteFile { path: self.pidfile_path(pids_dir), contents: i32_to_decimal(child) });
        assert(action_views(steps@) =~= parent_steps(pids_dir@, self.id@, child));
        steps
    }

    /// The work of the host once the first process of this container ended
    /// with `outcome`.
    pub fn after_wait(&self, pids_dir: &str, outcome: WaitOutcome) -> (steps: Vec<Action>)
        ensures
            action_views(steps@) == after_wait_steps(pids_dir@, self.id@, outcome),
    {
        let mut steps: Vec<Action> = Vec::new();
        match outcome {
            WaitOutcome::Exited => {
                steps.push(Action::RemoveFile { path: self.pidfile_path(pids_dir) });
            },
            WaitOutcome::Signaled => {},
            WaitOutcome::Other => {
                steps.push(Action::Report { message: String::from_str("Unexpected exit.") });
            },
        }
        assert(action_views(steps@) =~= after_wait_steps(pids_dir@, self.id@, outcome));
        steps
    }

    /// The next state of the host and its work, with pidfiles kept in
    /// `pids_dir`.
    pub fn host_step(&self, pids_dir: &str, state: HostState, event: HostEvent) -> (r: (HostState, Vec<Action>))
        ensures
            (r.0, action_views(r.1@)) == host_transition(pids_dir@, self.id@, state, event),
            (state is Waiting && event is ChildEnded) ==> r.0 == HostState::Finished,
    {
        match (state, event) {
            (HostState::Forking, HostEvent::Forked { child }) => {
                (HostState::Waiting { child }, self.parent_steps(pids_dir, child))
            },
            (HostState::Waiting { .. }, HostEvent::ChildEnded { outcome }) => {
                (HostState::Finished, self.after_wait(pids_dir, outcome))
            },
            _ => {
                let none: Vec<Action> = Vec::new();
                assert(action_views(none@) =~= Seq::<ActionView>::empty());
                (state, none)
            },
        }
    }
}

/// What the host records for a running container reads back as that
/// container and its first process: the second step of `parent_steps` writes,
/// into the file `<id>.pid` of the pid directory, contents that `Pidfile::read`
/// takes for the process `child` of the container `id` (any non-empty `id`).
pub proof fn law_recorded_pidfile_reads_back(pids_dir: Seq<char>, id: Seq<char>, child: i32)
    requires
        id.len() > 0,
    ensures
        parent_steps(pids_dir, id, child)[1] matches ActionView::WriteFile { path, contents }
            && path == pids_dir + "/"@ + (id + ".pid"@)
            && pidfile_of(id + ".pid"@, contents) == Some((child, id)),
{
    law_pidfile_reads_back(id, child);
    assert(pidfile_path_of(pids_dir, id) =~= pids_dir + "/"@ + (id + ".pid"@));
}

/// When the first process exits, the host removes the very pidfile it wrote
/// for it.
pub proof fn law_exit_removes_recorded_pidfile(pids_dir: Seq<char>, id: Seq<char>, child: i32)
    ensures
        parent_steps(pids_dir, id, child)[1] matches ActionView::WriteFile { path: written, .. }
            && after_wait_steps(pids_dir, id, WaitOutcome::Exited) == seq![
                ActionView::RemoveFile { path: written },
            ],
{
}


/// A run whose first process exits: the host records the process in the
/// container's pidfile, waits, then removes that same pidfile and ends.
pub proof fn law_host_run_with_exit(pids_dir: Seq<char>, id: Seq<char>, child: i32)
    ensures
        ({
            let (s1, w1) = host_transition(pids_dir, id, HostState::Forking, HostEvent::Forked { child });
            let (s2, w2) = host_transition(pids_dir, id, s1, HostEvent::ChildEnded { outcome: WaitOutcome::Exited });
            &&& s1 == HostState::Waiting { child }
            &&& s2 == HostState::Finished
            &&& w1.len() == 2
            &&& w1[1] matches ActionView::WriteFile { path: written, .. }
            &&& w2 == seq![ActionView::RemoveFile { path: written }]
        }),
{
}

/// Readying the host detaches it from the terminal exactly when the process
/// asks to become a daemon, and fetches and unpacks an image exactly when the
/// container has one, each independently of the other. Whatever was asked,
/// the host then leaves the PID, UTS, mount and user namespaces (keeping IPC
/// and network) and maps the host user and group to root, denying
/// `setgroups` in between.
pub proof fn law_prepare_follows_the_request(
    has_image: bool,
    cwd: Seq<char>,
    become_daemon: bool,
    uid: u32,
    gid: u32,
)
    ensures
        ({
            let s = prepare_steps(has_image, cwd, become_daemon, uid, gid);
            let k: int = (if has_image { 4int } else { 0int }) + (if become_daemon { 1int } else { 0int });
            &&& s.contains(ActionView::Daemonize) <==> become_daemon
            &&& s.contains(ActionView::PullImage) <==> has_image
            &&& has_image ==> s[1] == ActionView::BuildImage { dst: cwd }
            &&& s.len() == k + 4
            &&& s[k] == ActionView::Unshare {
                namespaces: Namespaces { pid: true, ipc: false, uts: true, mount: true, net: false, user: true },
            }
            &&& s[k + 1] == ActionView::WriteFile {
                path: "/proc/self/uid_map"@,
                contents: "0 "@ + decimal(uid as nat) + " 1"@,
            }
            &&& s[k + 2] == ActionView::WriteFile { path: "/proc/self/setgroups"@, contents: "deny"@ }
            &&& s[k + 3] == ActionView::WriteFile {
                path: "/proc/self/gid_map"@,
                contents: "0 "@ + decimal(gid as nat) + " 1"@,
            }
        }),
{
    broadcast use {
        vstd::seq_lib::lemma_seq_concat_contains_all_elements,
        vstd::seq_lib::lemma_seq_contains_after_push,
        vstd::seq_lib::lemma_seq_empty_contains_nothing,
    };
    let image_steps: Seq<ActionView> = if has_image {
        seq![
            ActionView::PullImage,
            ActionView::BuildImage { dst: cwd },
            ActionView::CopyFile { from: "/etc/hosts"@, to: cwd + "/etc/hosts"@ },
            ActionView::CopyFile { from: "/etc/resolv.conf"@, to: cwd + "/etc/resolv.conf"@ },
        ]
    } else {
        Seq::empty()
    };
    let daemon_steps: Seq<ActionView> = if become_daemon { seq![ActionView::Daemonize] } else { Seq::empty() };
    let tail: Seq<ActionView> = seq![
        ActionView::Unshare { namespaces: container_namespaces() },
        ActionView::WriteFile { path: "/proc/self/uid_map"@, contents: id_map_line(uid) },
        ActionView::WriteFile { path: "/proc/self/setgroups"@, contents: "deny"@ },
        ActionView::WriteFile { path: "/proc/self/gid_map"@, contents: id_map_line(gid) },
    ];
    let s = prepare_steps(has_image, cwd, become_daemon, uid, gid);
    assert(s == image_steps + daemon_steps + tail);
    assert(!tail.contains(ActionView::Daemonize));
    assert(!tail.contains(ActionView::PullImage));
    assert(!image_steps.contains(ActionView::Daemonize));
    assert(!daemon_steps.contains(ActionView::PullImage));
    if has_image {
        assert(image_steps[0] == ActionView::PullImage);
    }
    if become_daemon {
        assert(daemon_steps[0] == ActionView::Daemonize);
    }
}

/// The first process takes the container's ID as host name only after the
/// host has left the UTS namespace, so the host keeps its own name.
pub proof fn law_container_hostname_stays_inside(
    has_image: bool,
    become_daemon: bool,
    uid: u32,
    gid: u32,
    id: Seq<char>,
    cwd: Seq<char>,
    cmd: Seq<char>,
    env: Seq<Seq<char>>,
)
    ensures
        child_steps(id, cwd, cmd, env).contains(ActionView::SetHostname { name: id }),
        exists|i: int|
            0 <= i < prepare_steps(has_image, cwd, become_daemon, uid, gid).len()
                && ((#[trigger] prepare_steps(has_image, cwd, become_daemon, uid, gid)[i]) matches ActionView::Unshare {
                namespaces,
            } && namespaces.uts),
{
    law_prepare_follows_the_request(has_image, cwd, become_daemon, uid, gid);
    let k: int = (if has_image { 4int } else { 0int }) + (if become_daemon { 1int } else { 0int });
    assert(prepare_steps(has_image, cwd, become_daemon, uid, gid)[k] is Unshare);
    assert(child_steps(id, cwd, cmd, env)[2] == ActionView::SetHostname { name: id });
}

/// Every end of the first process, whether an exit, a signal or anything
/// else, finishes the run: the host stops waiting for a process that is gone.
/// Forking the first process makes the host wait for exactly that process, a
/// finished run ignores every further event, and a waiting host ignores a
/// second fork.
pub proof fn law_host_transitions(
    pids_dir: Seq<char>,
    id: Seq<char>,
    child: i32,
    other: i32,
    outcome: WaitOutcome,
    event: HostEvent,
)
    ensures
        ({
            let waiting = HostState::Waiting { child };
            let none = Seq::<ActionView>::empty();
            &&& host_transition(pids_dir, id, waiting, HostEvent::ChildEnded { outcome }).0 == HostState::Finished
            &&& host_transition(pids_dir, id, HostState::Forking, HostEvent::Forked { child }).0 == waiting
            &&& host_transition(pids_dir, id, HostState::Finished, event) == (HostState::Finished, none)
            &&& host_transition(pids_dir, id, waiting, HostEvent::Forked { child: other }) == (waiting, none)
            &&& host_transition(pids_dir, id, HostState::Forking, HostEvent::ChildEnded { outcome })
                == (HostState::Forking, none)
        }),
{
}

/// Only an exit of the first process removes its pidfile: after a signal the
/// host does nothing more, and after any other end it reports the unexpected
/// exit and keeps the file.
pub proof fn law_only_exit_removes_pidfile(pids_dir: Seq<char>, id: Seq<char>)
    ensures
        after_wait_steps(pids_dir, id, WaitOutcome::Exited) == seq![
            ActionView::RemoveFile { path: pids_dir + "/"@ + id + ".pid"@ },
        ],
        after_wait_steps(pids_dir, id, WaitOutcome::Signaled).len() == 0,
        after_wait_steps(pids_dir, id, WaitOutcome::Other) == seq![
            ActionView::Report { message: "Unexpected exit."@ },
        ],
{
}

/// The first process runs the command through `/bin/sh -c`, with the
/// process's environment, as its last step, and only after it entered the
/// container's root, named the host after the container and mounted proc.
pub proof fn law_first_process_runs_command_last(id: Seq<char>, cwd: Seq<char>, cmd: Seq<char>, env: Seq<Seq<char>>)
    ensures
        ({
            let s = child_steps(id, cwd, cmd, env);
            &&& s.len() == 6
            &&& s[0] == ActionView::Chroot { path: cwd }
            &&& s[1] == ActionView::Chdir { path: "/"@ }
            &&& s[2] == ActionView::SetHostname { name: id }
            &&& s[3] == ActionView::CreateDirAll { path: "proc"@, fatal: false }
            &&& s[4] == ActionView::MountProc
            &&& s[5] == ActionView::Exec { program: "/bin/sh"@, args: seq!["/bin/sh"@, "-c"@, cmd], env: env }
        }),
{
}

} // verus!
