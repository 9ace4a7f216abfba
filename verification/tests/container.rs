use cromwell::container::{Container, WaitOutcome};
use cromwell::image::Image;
use cromwell::plan::{Action, Namespaces};
use cromwell::process::Process;
use cromwell::container::id_from_draws;
use cromwell::container::{HostEvent, HostState};

fn process(cwd: &str, daemon: bool) -> Process {
    Process {
        cmd: "ls -a".to_string(),
        host_uid: 1000,
        host_gid: 100,
        cwd: cwd.to_string(),
        become_daemon: daemon,
        env: vec!["PATH=/bin".to_string()],
    }
}

#[test]
fn test_init_container() {
    let image_name = Some("library/alpine:3.8");
    let image = match image_name {
        Some(name) => Some(Image::new(name)),
        None => None,
    };
    let container = Container::new(image, None);
    assert_eq!(container.id.len(), 8);
}

#[test]
fn random_ids_are_letters_and_digits() {
    for _ in 0..50 {
        let container = Container::new(None, None);
        assert_eq!(container.id.chars().count(), 8);
        assert!(container.id.chars().all(|c| c.is_ascii_alphanumeric()));
    }
}

#[test]
fn given_path_is_the_id() {
    let container = Container::new(Some(Image::new("alpine")), Some("box1"));
    assert_eq!(container.id, "box1");
    assert_eq!(container.image.as_ref().map(|i| i.name.clone()), Some("alpine".to_string()));
}

#[test]
fn prepare_with_image_and_daemon() {
    let container = Container::new(Some(Image::new("alpine")), Some("c1"));
    let steps = container.prepare(&process("/srv/c1", true));
    assert_eq!(steps.len(), 9);
    assert!(matches!(steps[0], Action::PullImage));
    assert!(matches!(&steps[1], Action::BuildImage { dst } if dst == "/srv/c1"));
    assert!(matches!(&steps[2], Action::CopyFile { from, to } if from == "/etc/hosts" && to == "/srv/c1/etc/hosts"));
    assert!(matches!(&steps[3], Action::CopyFile { from, to } if from == "/etc/resolv.conf" && to == "/srv/c1/etc/resolv.conf"));
    assert!(matches!(steps[4], Action::Daemonize));
    let ns = Namespaces { pid: true, ipc: false, uts: true, mount: true, net: false, user: true };
    assert!(matches!(&steps[5], Action::Unshare { namespaces } if *namespaces == ns));
    assert!(matches!(&steps[6], Action::WriteFile { path, contents } if path == "/proc/self/uid_map" && contents == "0 1000 1"));
    assert!(matches!(&steps[7], Action::WriteFile { path, contents } if path == "/proc/self/setgroups" && contents == "deny"));
    assert!(matches!(&steps[8], Action::WriteFile { path, contents } if path == "/proc/self/gid_map" && contents == "0 100 1"));
}

#[test]
fn prepare_without_image() {
    let container = Container::new(None, Some("c2"));
    let steps = container.prepare(&process("/srv/c2", false));
    assert_eq!(steps.len(), 4);
    assert!(matches!(steps[0], Action::Unshare { .. }));
    assert!(matches!(&steps[1], Action::WriteFile { contents, .. } if contents == "0 1000 1"));
}

#[test]
fn child_steps_run_the_command_through_sh() {
    let container = Container::new(None, Some("c3"));
    let steps = container.child_steps(&process("/srv/c3", false));
    assert_eq!(steps.len(), 6);
    assert!(matches!(&steps[0], Action::Chroot { path } if path == "/srv/c3"));
    assert!(matches!(&steps[1], Action::Chdir { path } if path == "/"));
    assert!(matches!(&steps[2], Action::SetHostname { name } if name == "c3"));
    assert!(matches!(&steps[3], Action::CreateDirAll { path, fatal: false } if path == "proc"));
    assert!(matches!(steps[4], Action::MountProc));
    match &steps[5] {
        Action::Exec { program, args, env } => {
            assert_eq!(program, "/bin/sh");
            assert_eq!(args, &vec!["/bin/sh".to_string(), "-c".to_string(), "ls -a".to_string()]);
            assert_eq!(env, &vec!["PATH=/bin".to_string()]);
        }
        _ => panic!("the last step runs the command"),
    }
}

#[test]
fn parent_records_the_pid_and_removes_it_after_exit() {
    let container = Container::new(None, Some("c4"));
    assert_eq!(container.pidfile_path("/home/u/.cromwell/pids"), "/home/u/.cromwell/pids/c4.pid");
    let steps = container.parent_steps("/home/u/.cromwell/pids", 4242);
    assert_eq!(steps.len(), 2);
    assert!(matches!(&steps[0], Action::CreateDirAll { path, fatal: true } if path == "/home/u/.cromwell/pids"));
    assert!(matches!(&steps[1], Action::WriteFile { path, contents } if path == "/home/u/.cromwell/pids/c4.pid" && contents == "4242"));
    let exited = container.after_wait("/p", WaitOutcome::Exited);
    assert_eq!(exited.len(), 1);
    assert!(matches!(&exited[0], Action::RemoveFile { path } if path == "/p/c4.pid"));
    assert!(container.after_wait("/p", WaitOutcome::Signaled).is_empty());
    let other = container.after_wait("/p", WaitOutcome::Other);
    assert!(matches!(&other[0], Action::Report { message } if message == "Unexpected exit."));
}

#[test]
fn id_from_draws_takes_each_byte() {
    assert_eq!(id_from_draws(&b"aZ09bY18".to_vec()), "aZ09bY18");
    assert_eq!(id_from_draws(&vec![]), "");
}

#[test]
fn host_runs_record_wait_and_clean_up() {
    let container = Container::new(None, Some("c5"));
    let (s1, w1) = container.host_step("/p", HostState::Forking, HostEvent::Forked { child: 77 });
    assert_eq!(s1, HostState::Waiting { child: 77 });
    assert_eq!(w1.len(), 2);
    assert!(matches!(&w1[1], Action::WriteFile { path, contents } if path == "/p/c5.pid" && contents == "77"));
    let (s2, w2) = container.host_step("/p", s1, HostEvent::ChildEnded { outcome: WaitOutcome::Exited });
    assert_eq!(s2, HostState::Finished);
    assert!(matches!(&w2[0], Action::RemoveFile { path } if path == "/p/c5.pid"));
    let (s3, w3) = container.host_step("/p", s2, HostEvent::Forked { child: 1 });
    assert_eq!(s3, HostState::Finished);
    assert!(w3.is_empty());
}
