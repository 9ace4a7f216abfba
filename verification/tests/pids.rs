use cromwell::pids::{pids_dir, pids_dir_in, Pidfile};
use cromwell::text::parse_i32;

#[test]
fn pidfile_reads_back_what_was_written() {
    for (id, pid) in [("ab12CD34", 4242), ("my.box", 1), ("x", i32::MAX)] {
        let contents = Pidfile::contents(pid);
        let read = Pidfile::read(&format!("{}.pid", id), &contents);
        assert_eq!(read.pid, pid);
        assert_eq!(read.container_id, id);
    }
}

#[test]
fn pidfile_contents_that_are_no_number() {
    assert!(parse_i32("").is_none());
    assert!(parse_i32("12\n").is_none());
    assert!(parse_i32("pid").is_none());
}

#[test]
fn pidfile_row() {
    let p = Pidfile::read("box.pid", "-3");
    assert_eq!(p.row(), ("box".to_string(), "-3".to_string()));
}

#[test]
fn pids_directory() {
    assert_eq!(pids_dir_in("/home/u"), "/home/u/.cromwell/pids");
    let home = dirs::home_dir().unwrap();
    assert_eq!(
        pids_dir().ok().unwrap(),
        format!("{}/.cromwell/pids", home.to_str().unwrap())
    );
}
