use vstd::prelude::*;
use vstd::string::*;

use crate::plan::string_views;
use crate::text::{i32_to_decimal, signed_decimal};

verus! {

/// The user-mode network of a container, named after its tap device.
pub struct Network {
    pub name: String,
}

/// The arguments of `slirp4netns` that connect the process `pid` to the tap
/// device `name`.
pub open spec fn slirp_args_of(name: Seq<char>, pid: i32) -> Seq<Seq<char>> {
    seq!["--configure"@, "--mtu=65520"@, signed_decimal(pid as int), name]
}

impl Network {
    /// A network on the tap device `name`.
    pub fn new(name: &str) -> (n: Self)
        ensures
            n.name@ == name@,
    {
        Network { name: String::from_str(name) }
    }

    /// The arguments with which `slirp4netns` gives the process `pid` this
    /// network.
    pub fn slirp_args(&self, pid: i32) -> (args: Vec<String>)
        ensures
            string_views(args@) == slirp_args_of(self.name@, pid),
    {
        let mut args: Vec<String> = Vec::new();
        args.push(String::from_str("--configure"));
        args.push(String::from_str("--mtu=65520"));
        args.push(i32_to_decimal(pid));
        args.push(self.name.clone());
        assert(string_views(args@) =~= slirp_args_of(self.name@, pid));
        args
    }
}

} // verus!
