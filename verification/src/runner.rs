use vstd::prelude::*;
use vstd::string::*;

use crate::container::{is_alphanumeric, Container};
use crate::image::{image_name_of, image_tag_of, Image};
use crate::process::Process;
use crate::text::concat_str;

verus! {

/// The root directory on the host of the container `id`.
pub open spec fn container_root_of(id: Seq<char>) -> Seq<char> {
    "/home/vagrant/.cromwell/containers/"@ + id
}

/// The container and process of `cromwell run`: the command is `exec_command`
/// or `/bin/sh`; the image is named by `container_name`, if given; the
/// container's ID is `container_path`, or random; the process is rooted at the
/// container's directory, runs detached when asked to, with no environment.
pub fn setup_run(
    exec_command: Option<&str>,
    container_name: Option<&str>,
    container_path: Option<&str>,
    become_daemon: bool,
) -> (r: (Container, Process))
    ensures
        r.1.cmd@ == (match exec_command {
            Some(c) => c@,
            None => "/bin/sh"@,
        }),
        match container_name {
            Some(n) => r.0.image matches Some(image) && image.name@ == image_name_of(n@)
                && image.tag@ == image_tag_of(n@) && image.fs_layers@.len() == 0,
            None => r.0.image is None,
        },
        match container_path {
            Some(p) => r.0.id@ == p@,
            None => r.0.id@.len() == 8 && forall|i: int|
                0 <= i < 8 ==> is_alphanumeric(#[trigger] r.0.id@[i]),
        },
        r.1.cwd@ == container_root_of(r.0.id@),
        r.1.become_daemon == become_daemon,
        r.1.env@.len() == 0,
{
    let command = match exec_command {
        Some(c) => c,
        None => "/bin/sh",
    };
    let image = match container_name {
        Some(name) => Some(Image::new(name)),
        None => None,
    };
    let container = Container::new(image, container_path);
    let cwd = concat_str("/home/vagrant/.cromwell/containers/", container.id.as_str());
    let process = Process::new(command, cwd, become_daemon, Vec::new());
    (container, process)
}

} // verus!
