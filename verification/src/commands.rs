use vstd::prelude::*;
use vstd::string::*;

use crate::plan::string_views;
use crate::text::{split_on, split_seq, str_views};

verus! {

/// The words of `command`, split at every space.
pub fn parse_command(command: &str) -> (words: Vec<&str>)
    ensures
        str_views(words@) == split_seq(command@, ' '),
{
    split_on(command, ' ')
}

/// The arguments with which `sh` runs `command`.
pub fn shell_args(command: &str) -> (args: Vec<String>)
    ensures
        string_views(args@) == seq!["-c"@, command@],
{
    let mut args: Vec<String> = Vec::new();
    args.push(String::from_str("-c"));
    args.push(String::from_str(command));
    assert(string_views(args@) =~= seq!["-c"@, command@]);
    args
}


/// What `exec_each` does next.
pub enum ExecEachStep {
    /// Run `sh` with `args` and wait for it.
    Run { args: Vec<String> },
    /// Stop with `result`.
    Finished { result: Result<&'static str, &'static str> },
}

/// The next step of running `commands` one by one through `sh`, after `index`
/// of them ran: a failure to start the last one stops with an error, else the
/// next command runs, else all is done.
pub fn exec_each_step(commands: &[String], index: usize, spawn_failed: bool) -> (step: ExecEachStep)
    ensures
        spawn_failed ==> (step matches ExecEachStep::Finished { result: Err(m) } && m@ == "Could not exec Command"@),
        !spawn_failed && index < commands@.len() ==> (step matches ExecEachStep::Run { args }
            && string_views(args@) == seq!["-c"@, commands@[index as int]@]),
        !spawn_failed && index >= commands@.len() ==> (step matches ExecEachStep::Finished { result: Ok(m) }
            && m@ == "all commands successfull."@),
{
    if spawn_failed {
        ExecEachStep::Finished { result: Err("Could not exec Command") }
    } else if index < commands.len() {
        ExecEachStep::Run { args: shell_args(commands[index].as_str()) }
    } else {
        ExecEachStep::Finished { result: Ok("all commands successfull.") }
    }
}

} // verus!
