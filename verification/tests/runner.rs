use cromwell::bootstrap::pacstrap_args;
use cromwell::process::Process;
use cromwell::runner::setup_run;

#[test]
fn run_setup_defaults() {
    let (container, process) = setup_run(None, None, None, false);
    assert!(container.image.is_none());
    assert_eq!(container.id.len(), 8);
    assert_eq!(process.cmd, "/bin/sh");
    assert_eq!(process.cwd, format!("/home/vagrant/.cromwell/containers/{}", container.id));
    assert!(!process.become_daemon);
    assert!(process.env.is_empty());
}

#[test]
fn run_setup_with_everything_given() {
    let (container, process) = setup_run(Some("ls -a"), Some("library/alpine:3.8"), Some("box"), true);
    let image = container.image.as_ref().unwrap();
    assert_eq!(image.name, "library/alpine");
    assert_eq!(image.tag, "3.8");
    assert_eq!(container.id, "box");
    assert_eq!(process.cmd, "ls -a");
    assert_eq!(process.cwd, "/home/vagrant/.cromwell/containers/box");
    assert!(process.become_daemon);
}

#[test]
fn process_is_mapped_from_the_caller() {
    let p = Process::new("sh", "/x".to_string(), false, vec!["A=1".to_string()]);
    assert_eq!(p.cmd, "sh");
    assert_eq!(p.cwd, "/x");
    assert_eq!(p.env, vec!["A=1".to_string()]);
    assert_eq!(p.host_uid, nix::unistd::getuid().as_raw());
    assert_eq!(p.host_gid, nix::unistd::getgid().as_raw());
}

#[test]
fn pacstrap_arguments() {
    let expected: Vec<String> = ["-i", "/c", "base", "base-devel", "dnsutils", "--noconfirm"]
        .iter()
        .map(|s| s.to_string())
        .collect();
    assert_eq!(pacstrap_args("/c"), expected);
}

#[test]
fn process_with_given_ids() {
    let p = Process::with_ids("sh", "/x".to_string(), true, vec![], 1000, 100);
    assert_eq!(p.host_uid, 1000);
    assert_eq!(p.host_gid, 100);
    assert!(p.become_daemon);
}
