use cromwell::cli::{network_names, network_request, network_setup, run_command, BridgeCommand, CliError, NetworkSetupStep};
use cromwell::network::Network;
use cromwell::options::OptionsError;
use cromwell::cli::{child_steps, host_steps};
use cromwell::plan::Action;
use cromwell::cli::network;
use cromwell::cli::{run_start, RunStart};

fn args(v: &[&str]) -> Vec<String> {
    v.iter().map(|s| s.to_string()).collect()
}

#[test]
fn network_name_and_slirp_arguments() {
    let network = Network::new("tap0");
    assert_eq!(network.name, "tap0");
    assert_eq!(
        network.slirp_args(1234),
        args(&["--configure", "--mtu=65520", "1234", "tap0"])
    );
}

#[test]
fn names_of_a_container_network() {
    let n = network_names("web");
    assert_eq!(n.namespace, "web-ns");
    assert_eq!(n.veth_host, "web_host");
    assert_eq!(n.veth_guest, "web_guest");
    assert_eq!(n.guest_address, (172, 0, 0, 2));
}

#[test]
fn setup_adds_what_is_missing() {
    assert_eq!(
        network_setup(false, false, false),
        vec![
            NetworkSetupStep::AddBridge,
            NetworkSetupStep::AddNamespace,
            NetworkSetupStep::AddVeth,
            NetworkSetupStep::AddContainerNetwork
        ]
    );
    assert_eq!(network_setup(true, true, true), vec![NetworkSetupStep::AddContainerNetwork]);
    assert_eq!(
        network_setup(true, false, true),
        vec![NetworkSetupStep::AddNamespace, NetworkSetupStep::AddContainerNetwork]
    );
}

#[test]
fn run_command_defaults_to_bash() {
    assert_eq!(run_command(None), "/bin/bash");
    assert_eq!(run_command(Some("ls -a")), "ls -a");
}

#[test]
fn network_request_reads_the_flags() {
    let r = network_request(&args(&["cromwell", "-n", "web", "--create-bridge", "--clean"])).ok().unwrap();
    assert_eq!(r.names.namespace, "web-ns");
    assert_eq!(r.command, Some(BridgeCommand::CreateBridge));
    let r = network_request(&args(&["cromwell", "--name=db", "--delete-bridge", "--clean"])).ok().unwrap();
    assert_eq!(r.names.veth_guest, "db_guest");
    assert_eq!(r.command, Some(BridgeCommand::DeleteBridge));
    let r = network_request(&args(&["cromwell", "--clean", "--name", "x"])).ok().unwrap();
    assert_eq!(r.command, Some(BridgeCommand::Clean));
    let r = network_request(&args(&["cromwell", "-nweb"])).ok().unwrap();
    assert_eq!(r.names.veth_host, "web_host");
    assert_eq!(r.command, None);
}

#[test]
fn network_request_errors() {
    assert!(matches!(network_request(&args(&["cromwell", "--create-bridge"])), Err(CliError::MissingContainerName)));
    assert!(matches!(network_request(&args(&["cromwell", "--bogus"])),
        Err(CliError::InvalidArguments(OptionsError::UnrecognizedOption(n))) if n == "bogus"));
    assert!(matches!(network_request(&args(&["cromwell", "-n"])),
        Err(CliError::InvalidArguments(OptionsError::ArgumentMissing(n))) if n == "n"));
    assert!(matches!(network_request(&args(&["cromwell", "-n", "a", "-n", "b"])),
        Err(CliError::InvalidArguments(OptionsError::OptionDuplicated(n))) if n == "name"));
    assert!(matches!(network_request(&args(&["cromwell", "--clean=yes", "-n", "a"])),
        Err(CliError::InvalidArguments(OptionsError::UnexpectedArgument(n))) if n == "clean"));
}

#[test]
fn run_host_and_child_steps() {
    let host = host_steps("/var/lib/c");
    assert_eq!(host.len(), 5);
    assert!(matches!(host[0], Action::MountRootPrivate));
    assert!(matches!(&host[1], Action::BindMount { path } if path == "/var/lib/c"));
    assert!(matches!(&host[2], Action::Unshare { namespaces } if namespaces.net && namespaces.ipc && !namespaces.user));
    assert!(matches!(&host[3], Action::Chroot { path } if path == "/var/lib/c"));
    assert!(matches!(&host[4], Action::Chdir { path } if path == "/"));
    let child = child_steps("web", "ls");
    assert_eq!(child.len(), 4);
    assert!(matches!(&child[0], Action::SetHostname { name } if name == "web"));
    match &child[3] {
        Action::ExecKeepingEnv { program, args } => {
            assert_eq!(program, "/bin/bash");
            assert_eq!(args, &vec!["/bin/bash".to_string(), "-c".to_string(), "ls".to_string()]);
        }
        _ => panic!("the last step runs the command"),
    }
}

#[test]
fn network_of_accepted_arguments() {
    let r = network(&args(&["cromwell", "--name", "web", "--delete-bridge"]));
    assert_eq!(r.names.namespace, "web-ns");
    assert_eq!(r.command, Some(BridgeCommand::DeleteBridge));
}

#[test]
fn run_start_order() {
    assert_eq!(run_start(true, true, false), RunStart::ShowHelp);
    assert_eq!(run_start(false, true, false), RunStart::DeleteContainer);
    assert_eq!(run_start(false, false, false), RunStart::BootstrapThenRun);
    assert_eq!(run_start(false, false, true), RunStart::Run);
}
