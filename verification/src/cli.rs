use vstd::prelude::*;
use vstd::string::*;

use crate::options::{get_network_options, getopts_parse, matched_values, network_option_groups, opt_present, opt_str, OptionsError};
use crate::plan::{action_views, string_views, Action, ActionView, Namespaces};
use crate::text::concat_str;

verus! {

/// The command that `run` executes: the one given, else `/bin/bash`.
pub fn run_command(exec: Option<&str>) -> (cmd: String)
    ensures
        cmd@ == (match exec {
            Some(c) => c@,
            None => "/bin/bash"@,
        }),
{
    match exec {
        Some(c) => String::from_str(c),
        None => String::from_str("/bin/bash"),
    }
}

/// The network of a container: its network namespace, the two ends of its
/// veth pair, and the guest's IPv4 address.
pub struct NetworkNames {
    pub namespace: String,
    pub veth_host: String,
    pub veth_guest: String,
    pub guest_address: (u8, u8, u8, u8),
}

/// The network of the container `name`: namespace `<name>-ns`, veth ends
/// `<name>_host` and `<name>_guest`, guest address 172.0.0.2.
pub fn network_names(name: &str) -> (n: NetworkNames)
    ensures
        n.namespace@ == name@ + "-ns"@,
        n.veth_host@ == name@ + "_host"@,
        n.veth_guest@ == name@ + "_guest"@,
        n.guest_address == (172u8, 0u8, 0u8, 2u8),
{
    NetworkNames {
        namespace: concat_str(name, "-ns"),
        veth_host: concat_str(name, "_host"),
        veth_guest: concat_str(name, "_guest"),
        guest_address: (172, 0, 0, 2),
    }
}

/// A piece of network that `run` sets up.
#[derive(PartialEq, Eq, Structural, Debug, Clone, Copy)]
pub enum NetworkSetupStep {
    AddBridge,
    AddNamespace,
    AddVeth,
    AddContainerNetwork,
}

/// What `run` sets up: each of the bridge, the namespace and the veth pair
/// that does not exist yet, in that order, then the container's network.
pub open spec fn network_setup_of(bridge_exists: bool, namespace_exists: bool, veth_exists: bool) -> Seq<NetworkSetupStep> {
    (if bridge_exists { Seq::empty() } else { seq![NetworkSetupStep::AddBridge] })
        + (if namespace_exists { Seq::empty() } else { seq![NetworkSetupStep::AddNamespace] })
        + (if veth_exists { Seq::empty() } else { seq![NetworkSetupStep::AddVeth] })
        + seq![NetworkSetupStep::AddContainerNetwork]
}

/// The network work of `run`, given what exists already.
pub fn network_setup(bridge_exists: bool, namespace_exists: bool, veth_exists: bool) -> (steps: Vec<NetworkSetupStep>)
    ensures
        steps@ == network_setup_of(bridge_exists, namespace_exists, veth_exists),
        steps@.contains(NetworkSetupStep::AddBridge) <==> !bridge_exists,
        steps@.contains(NetworkSetupStep::AddNamespace) <==> !namespace_exists,
        steps@.contains(NetworkSetupStep::AddVeth) <==> !veth_exists,
{
    let mut steps: Vec<NetworkSetupStep> = Vec::new();
    if !bridge_exists {
        steps.push(NetworkSetupStep::AddBridge);
    }
    if !namespace_exists {
        steps.push(NetworkSetupStep::AddNamespace);
    }
    if !veth_exists {
        steps.push(NetworkSetupStep::AddVeth);
    }
    steps.push(NetworkSetupStep::AddContainerNetwork);
    assert(steps@ =~= network_setup_of(bridge_exists, namespace_exists, veth_exists));
    proof {
        law_network_setup_adds_what_is_missing(bridge_exists, namespace_exists, veth_exists);
    }
    steps
}

/// What `network` does to the bridge `ace0` or to the container's network.
#[derive(PartialEq, Eq, Structural, Debug, Clone, Copy)]
pub enum BridgeCommand {
    CreateBridge,
    DeleteBridge,
    Clean,
}

/// A request of `cromwell network`: the container's network and what to do.
pub struct NetworkRequest {
    pub names: NetworkNames,
    pub command: Option<BridgeCommand>,
}

/// Why the arguments of `cromwell network` are refused.
pub enum CliError {
    /// The options do not parse.
    InvalidArguments(OptionsError),
    /// No container name is given.
    MissingContainerName,
}

/// The argument of the first occurrence of an option, if it took one.
pub open spec fn first_argument(vals: Seq<Option<Seq<char>>>) -> Option<Seq<char>> {
    if vals.len() > 0 {
        vals[0]
    } else {
        None
    }
}

/// The command that the matched flags ask for: creating the bridge first,
/// then deleting it, then cleaning up.
pub open spec fn bridge_command_of(vals: Map<Seq<char>, Seq<Option<Seq<char>>>>) -> Option<BridgeCommand> {
    if vals["create-bridge"@].len() > 0 {
        Some(BridgeCommand::CreateBridge)
    } else if vals["delete-bridge"@].len() > 0 {
        Some(BridgeCommand::DeleteBridge)
    } else if vals["clean"@].len() > 0 {
        Some(BridgeCommand::Clean)
    } else {
        None
    }
}

/// The request that matched options make: the network of the container
/// named by the first argument of `name`, and the command that the flags ask
/// for.
pub open spec fn request_is(req: NetworkRequest, name: Seq<char>, vals: Map<Seq<char>, Seq<Option<Seq<char>>>>) -> bool {
    &&& req.names.namespace@ == name + "-ns"@
    &&& req.names.veth_host@ == name + "_host"@
    &&& req.names.veth_guest@ == name + "_guest"@
    &&& req.names.guest_address == (172u8, 0u8, 0u8, 2u8)
    &&& req.command == bridge_command_of(vals)
}

/// Whether matched values `vals` of `cromwell network` answer to its four
/// option names, with an argument for `name`.
pub open spec fn matches_name_a_container(vals: Map<Seq<char>, Seq<Option<Seq<char>>>>) -> bool {
    &&& vals.contains_key("name"@)
    &&& vals.contains_key("clean"@)
    &&& vals.contains_key("create-bridge"@)
    &&& vals.contains_key("delete-bridge"@)
    &&& first_argument(vals["name"@]) is Some
}

/// The request that the parsed options `m` of `cromwell network` make.
pub fn request_from_matches(m: &getopts::Matches) -> (req: NetworkRequest)
    requires
        matches_name_a_container(matched_values(*m)),
    ensures
        request_is(req, first_argument(matched_values(*m)["name"@])->0, matched_values(*m)),
{
    let name = match opt_str(m, "name") {
        Some(n) => n,
        None => {
            proof {
                assert(false);
            }
            String::new()
        },
    };
    let names = network_names(name.as_str());
    let command = if opt_present(m, "create-bridge") {
        Some(BridgeCommand::CreateBridge)
    } else if opt_present(m, "delete-bridge") {
        Some(BridgeCommand::DeleteBridge)
    } else if opt_present(m, "clean") {
        Some(BridgeCommand::Clean)
    } else {
        None
    };
    NetworkRequest { names, command }
}

/// Whether `args`, the program's name first, are arguments that `network`
/// takes: they parse, and they name a container.
pub open spec fn network_args_accepted(args: Seq<String>) -> bool {
    &&& args.len() >= 1
    &&& getopts_parse(network_option_groups(), string_views(args.skip(1))) is Ok
    &&& first_argument(getopts_parse(network_option_groups(), string_views(args.skip(1)))->Ok_0["name"@]) is Some
}

/// What `cromwell network` is asked to do by the arguments `args`, the
/// program's name first.
pub fn network(args: &Vec<String>) -> (req: NetworkRequest)
    requires
        network_args_accepted(args@),
    ensures
        ({
            let vals = getopts_parse(network_option_groups(), string_views(args@.skip(1)))->Ok_0;
            request_is(req, first_argument(vals["name"@])->0, vals)
        }),
{
    match get_network_options(args) {
        Ok(m) => request_from_matches(&m),
        Err(_) => {
            proof {
                assert(false);
            }
            NetworkRequest { names: network_names(""), command: None }
        },
    }
}

/// Reads the arguments of `cromwell network`, the program's name first:
/// the request when `network` takes them, else why not.
pub fn network_request(args: &Vec<String>) -> (r: Result<NetworkRequest, CliError>)
    requires
        args@.len() >= 1,
    ensures
        match getopts_parse(network_option_groups(), string_views(args@.skip(1))) {
            Err(why) => r matches Err(CliError::InvalidArguments(e)) && e@ == why,
            Ok(vals) => match first_argument(vals["name"@]) {
                None => r matches Err(CliError::MissingContainerName),
                Some(name) => r matches Ok(req) && request_is(req, name, vals),
            },
        },
{
    let matches = match get_network_options(args) {
        Ok(m) => m,
        Err(f) => return Err(CliError::InvalidArguments(f)),
    };
    match opt_str(&matches, "name") {
        Some(_) => Ok(network(args)),
        None => Err(CliError::MissingContainerName),
    }
}

/// What `run` does before it sets up the network.
#[derive(PartialEq, Eq, Structural, Debug, Clone, Copy)]
pub enum RunStart {
    /// Print the usage and stop.
    ShowHelp,
    /// Delete the container and stop.
    DeleteContainer,
    /// Create the container's directory, install a base system into it, then
    /// run.
    BootstrapThenRun,
    /// Run in the existing container.
    Run,
}

/// The start of `run`: help first, then deletion, then a bootstrap of a
/// container that does not exist yet.
pub fn run_start(help: bool, delete: bool, container_exists: bool) -> (start: RunStart)
    ensures
        start == (if help {
            RunStart::ShowHelp
        } else if delete {
            RunStart::DeleteContainer
        } else if !container_exists {
            RunStart::BootstrapThenRun
        } else {
            RunStart::Run
        }),
{
    if help {
        RunStart::ShowHelp
    } else if delete {
        RunStart::DeleteContainer
    } else if !container_exists {
        RunStart::BootstrapThenRun
    } else {
        RunStart::Run
    }
}

/// The namespaces that `run` leaves before entering the container.
pub open spec fn run_namespaces() -> Namespaces {
    Namespaces { pid: true, ipc: true, uts: true, mount: true, net: true, user: false }
}

/// The work of `run` on the host once the network is set up: keep mounts
/// private, bind the container's directory onto itself, leave the namespaces,
/// and enter the container's directory as root.
pub open spec fn host_steps_of(container_path: Seq<char>) -> Seq<ActionView> {
    seq![
        ActionView::MountRootPrivate,
        ActionView::BindMount { path: container_path },
        ActionView::Unshare { namespaces: run_namespaces() },
        ActionView::Chroot { path: container_path },
        ActionView::Chdir { path: "/"@ },
    ]
}

/// The work of the forked process of `run`: take the container's name as
/// host name, mount proc and run `command` through `/bin/bash -c`.
pub open spec fn child_steps_of(container_name: Seq<char>, command: Seq<char>) -> Seq<ActionView> {
    seq![
        ActionView::SetHostname { name: container_name },
        ActionView::CreateDirAll { path: "proc"@, fatal: false },
        ActionView::MountProc,
        ActionView::ExecKeepingEnv {
            program: "/bin/bash"@,
            args: seq!["/bin/bash"@, "-c"@, command],
        },
    ]
}

/// The host's work of `run` for the container at `container_path`.
pub fn host_steps(container_path: &str) -> (steps: Vec<Action>)
    ensures
        action_views(steps@) == host_steps_of(container_path@),
        action_views(steps@)[2] == (ActionView::Unshare {
            namespaces: Namespaces { pid: true, ipc: true, uts: true, mount: true, net: true, user: false },
        }),
{
    let mut steps: Vec<Action> = Vec::new();
    steps.push(Action::MountRootPrivate);
    steps.push(Action::BindMount { path: String::from_str(container_path) });
    steps.push(Action::Unshare {
        namespaces: Namespaces { pid: true, ipc: true, uts: true, mount: true, net: true, user: false },
    });
    steps.push(Action::Chroot { path: String::from_str(container_path) });
    steps.push(Action::Chdir { path: String::from_str("/") });
    assert(action_views(steps@) =~= host_steps_of(container_path@));
    proof {
        law_run_host_steps(container_path@);
    }
    steps
}

/// The forked process's work of `run` for the container `container_name`.
pub fn child_steps(container_name: &str, command: &str) -> (steps: Vec<Action>)
    ensures
        action_views(steps@) == child_steps_of(container_name@, command@),
{
    let mut args: Vec<String> = Vec::new();
    args.push(String::from_str("/bin/bash"));
    args.push(String::from_str("-c"));
    args.push(String::from_str(command));
    let mut steps: Vec<Action> = Vec::new();
    steps.push(Action::SetHostname { name: String::from_str(container_name) });
    steps.push(Action::CreateDirAll { path: String::from_str("proc"), fatal: false });
    steps.push(Action::MountProc);
    steps.push(Action::ExecKeepingEnv { program: String::from_str("/bin/bash"), args });
    assert(string_views(args@) =~= seq!["/bin/bash"@, "-c"@, command@]);
    assert(action_views(steps@) =~= child_steps_of(container_name@, command@));
    steps
}

/// Each missing piece of network is set up, independently of the others:
/// the bridge exactly when it does not exist, the namespace exactly when it
/// does not exist, the veth pair exactly when it does not exist. Each comes
/// at most once, the bridge before the namespace before the veth pair, and
/// the container's network is always set up, last.
pub proof fn law_network_setup_adds_what_is_missing(bridge_exists: bool, namespace_exists: bool, veth_exists: bool)
    ensures
        ({
            let s = network_setup_of(bridge_exists, namespace_exists, veth_exists);
            let nb: int = if bridge_exists { 0int } else { 1int };
            let nn: int = if namespace_exists { 0int } else { 1int };
            let nv: int = if veth_exists { 0int } else { 1int };
            &&& s.contains(NetworkSetupStep::AddBridge) <==> !bridge_exists
            &&& s.contains(NetworkSetupStep::AddNamespace) <==> !namespace_exists
            &&& s.contains(NetworkSetupStep::AddVeth) <==> !veth_exists
            &&& s.len() == nb + nn + nv + 1
            &&& !bridge_exists ==> s[0] == NetworkSetupStep::AddBridge
            &&& !namespace_exists ==> s[nb] == NetworkSetupStep::AddNamespace
            &&& !veth_exists ==> s[nb + nn] == NetworkSetupStep::AddVeth
            &&& s[nb + nn + nv] == NetworkSetupStep::AddContainerNetwork
        }),
{
    broadcast use {
        vstd::seq_lib::lemma_seq_concat_contains_all_elements,
        vstd::seq_lib::lemma_seq_contains_after_push,
        vstd::seq_lib::lemma_seq_empty_contains_nothing,
    };
    let b: Seq<NetworkSetupStep> = if bridge_exists { Seq::empty() } else { seq![NetworkSetupStep::AddBridge] };
    let n: Seq<NetworkSetupStep> = if namespace_exists { Seq::empty() } else { seq![NetworkSetupStep::AddNamespace] };
    let v: Seq<NetworkSetupStep> = if veth_exists { Seq::empty() } else { seq![NetworkSetupStep::AddVeth] };
    let last: Seq<NetworkSetupStep> = seq![NetworkSetupStep::AddContainerNetwork];
    assert(network_setup_of(bridge_exists, namespace_exists, veth_exists) == b + n + v + last);
    if !bridge_exists {
        assert(b[0] == NetworkSetupStep::AddBridge);
    }
    if !namespace_exists {
        assert(n[0] == NetworkSetupStep::AddNamespace);
    }
    if !veth_exists {
        assert(v[0] == NetworkSetupStep::AddVeth);
    }
    assert(last[0] == NetworkSetupStep::AddContainerNetwork);
}

/// Before entering the container, `run` keeps the host's mounts private,
/// binds the container's directory onto itself and leaves the PID, IPC, UTS,
/// mount and network namespaces (not the user namespace), then enters the
/// directory as root.
pub proof fn law_run_host_steps(container_path: Seq<char>)
    ensures
        host_steps_of(container_path) == seq![
            ActionView::MountRootPrivate,
            ActionView::BindMount { path: container_path },
            ActionView::Unshare {
                namespaces: Namespaces { pid: true, ipc: true, uts: true, mount: true, net: true, user: false },
            },
            ActionView::Chroot { path: container_path },
            ActionView::Chdir { path: "/"@ },
        ],
{
}

/// The forked process of `run` takes the container's name as host name only
/// after the host's work has left the UTS namespace, so the host keeps its
/// own name.
pub proof fn law_run_hostname_stays_inside(container_path: Seq<char>, container_name: Seq<char>, command: Seq<char>)
    ensures
        child_steps_of(container_name, command)[0] == (ActionView::SetHostname { name: container_name }),
        host_steps_of(container_path)[2] matches ActionView::Unshare { namespaces } && namespaces.uts,
{
    law_run_host_steps(container_path);
}

/// Creating the bridge wins over deleting it, which wins over cleaning up,
/// and no flag asks for nothing.
pub proof fn law_bridge_command_priority(vals: Map<Seq<char>, Seq<Option<Seq<char>>>>)
    ensures
        vals["create-bridge"@].len() > 0 ==> bridge_command_of(vals) == Some(BridgeCommand::CreateBridge),
        vals["create-bridge"@].len() == 0 && vals["delete-bridge"@].len() > 0 ==> bridge_command_of(vals) == Some(
            BridgeCommand::DeleteBridge,
        ),
        vals["create-bridge"@].len() == 0 && vals["delete-bridge"@].len() == 0 && vals["clean"@].len() > 0
            ==> bridge_command_of(vals) == Some(BridgeCommand::Clean),
        vals["create-bridge"@].len() == 0 && vals["delete-bridge"@].len() == 0 && vals["clean"@].len() == 0
            ==> bridge_command_of(vals) == None::<BridgeCommand>,
{
}

/// The forked process of `run` runs `command` through `/bin/bash -c`,
/// keeping the environment, as its last step, after it named the host after
/// the container and mounted proc.
pub proof fn law_run_child_runs_command_last(container_name: Seq<char>, command: Seq<char>)
    ensures
        child_steps_of(container_name, command) == seq![
            ActionView::SetHostname { name: container_name },
            ActionView::CreateDirAll { path: "proc"@, fatal: false },
            ActionView::MountProc,
            ActionView::ExecKeepingEnv { program: "/bin/bash"@, args: seq!["/bin/bash"@, "-c"@, command] },
        ],
{
}

} // verus!
