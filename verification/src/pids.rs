use vstd::prelude::*;
use vstd::string::*;

use crate::config::{home_dir, HomeError};
use crate::text::{concat_str, file_stem, file_stem_spec, i32_to_decimal, law_parse_reads_back_decimal, law_stem_of_pid_file_name, parse_i32, parse_i32_spec, signed_decimal};

verus! {

/// The directory of pidfiles in the home directory `home`.
pub open spec fn pids_dir_of(home: Seq<char>) -> Seq<char> {
    home + "/.cromwell/pids"@
}

/// The directory of pidfiles in the home directory `home`.
pub fn pids_dir_in(home: &str) -> (dir: String)
    ensures
        dir@ == pids_dir_of(home@),
{
    concat_str(home, "/.cromwell/pids")
}

/// The directory of pidfiles in the user's home directory; `Err` when the
/// home directory is not at hand.
pub fn pids_dir() -> (r: Result<String, HomeError>)
    ensures
        r matches Ok(dir) ==> exists|home: Seq<char>| dir@ == pids_dir_of(home),
{
    match home_dir() {
        Ok(home) => Ok(pids_dir_in(home.as_str())),
        Err(e) => Err(e),
    }
}

/// A running container as its pidfile records it: the ID of its first
/// process and the container's ID, which names the file.
pub struct Pidfile {
    pub pid: i32,
    pub container_id: String,
}

/// What a pidfile named `file_name` holding `contents` records.
pub open spec fn pidfile_of(file_name: Seq<char>, contents: Seq<char>) -> Option<(i32, Seq<char>)> {
    match parse_i32_spec(contents) {
        Some(pid) => Some((pid, file_stem_spec(file_name))),
        None => None,
    }
}

impl Pidfile {
    /// The contents of the pidfile of the process `pid`: its decimal ID.
    pub fn contents(pid: i32) -> (text: String)
        ensures
            text@ == signed_decimal(pid as int),
    {
        i32_to_decimal(pid)
    }

    /// Reads the pidfile named `file_name` that holds `contents`, the decimal
    /// ID of a process: the container's ID is the stem of the file's name.
    pub fn read(file_name: &str, contents: &str) -> (p: Pidfile)
        requires
            parse_i32_spec(contents@) is Some,
        ensures
            pidfile_of(file_name@, contents@) == Some((p.pid, p.container_id@)),
    {
        let pid = match parse_i32(contents) {
            Some(pid) => pid,
            None => {
                proof {
                    assert(false);
                }
                0
            },
        };
        Pidfile { pid, container_id: file_stem(file_name) }
    }

    /// The row of this pidfile in the table of containers: the container's ID
    /// and the process ID in decimal.
    pub fn row(&self) -> (row: (String, String))
        ensures
            row.0@ == self.container_id@,
            row.1@ == signed_decimal(self.pid as int),
    {
        (self.container_id.clone(), i32_to_decimal(self.pid))
    }
}

/// Reading a pidfile gives back what was written to it: the pidfile of the
/// container `id` and the process `pid`, written as `contents(pid)` to the file
/// `id.pid`, reads as that process and that container, for any non-empty `id`.
pub proof fn law_pidfile_reads_back(id: Seq<char>, pid: i32)
    requires
        id.len() > 0,
    ensures
        pidfile_of(id + ".pid"@, signed_decimal(pid as int)) == Some((pid, id)),
{
    reveal_strlit(".pid");
    assert(".pid"@ =~= seq!['.', 'p', 'i', 'd']);
    law_parse_reads_back_decimal(pid);
    law_stem_of_pid_file_name(id);
}

} // verus!
