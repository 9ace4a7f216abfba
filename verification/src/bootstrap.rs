use vstd::prelude::*;
use vstd::string::*;

use crate::plan::string_views;

verus! {

/// The arguments with which `pacstrap` installs an Arch Linux base system
/// into `container_path`.
pub fn pacstrap_args(container_path: &str) -> (args: Vec<String>)
    ensures
        string_views(args@) == seq![
            "-i"@,
            container_path@,
            "base"@,
            "base-devel"@,
            "dnsutils"@,
            "--noconfirm"@,
        ],
{
    let mut args: Vec<String> = Vec::new();
    args.push(String::from_str("-i"));
    args.push(String::from_str(container_path));
    args.push(String::from_str("base"));
    args.push(String::from_str("base-devel"));
    args.push(String::from_str("dnsutils"));
    args.push(String::from_str("--noconfirm"));
    assert(string_views(args@) =~= seq![
        "-i"@,
        container_path@,
        "base"@,
        "base-devel"@,
        "dnsutils"@,
        "--noconfirm"@,
    ]);
    args
}

} // verus!
