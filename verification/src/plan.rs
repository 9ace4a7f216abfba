use vstd::prelude::*;

verus! {

/// The views of a vector of strings.
pub open spec fn string_views(v: Seq<String>) -> Seq<Seq<char>> {
    v.map_values(|s: String| s@)
}

/// The namespaces that a call of `unshare(2)` detaches the process from.
#[derive(PartialEq, Eq, Structural, Debug, Clone, Copy)]
pub struct Namespaces {
    pub pid: bool,
    pub ipc: bool,
    pub uts: bool,
    pub mount: bool,
    pub net: bool,
    pub user: bool,
}

/// One step of outside work that the runtime performs on the host or in the
/// container; the library decides which steps, in which order, with which
/// arguments.
pub enum Action {
    /// Fetch the layers of the container's image from the registry.
    PullImage,
    /// Unpack the fetched layers of the container's image into `dst`.
    BuildImage { dst: String },
    /// Copy the file `from` to `to`.
    CopyFile { from: String, to: String },
    /// Detach from the terminal, keeping the working directory.
    Daemonize,
    /// Leave the given namespaces.
    Unshare { namespaces: Namespaces },
    /// Replace the contents of the file `path` with `contents`.
    WriteFile { path: String, contents: String },
    /// Remove the file `path`.
    RemoveFile { path: String },
    /// Create the directory `path` and its parents; when `fatal` is false a
    /// failure is reported and the work goes on.
    CreateDirAll { path: String, fatal: bool },
    /// Change the root directory to `path`.
    Chroot { path: String },
    /// Change the working directory to `path`.
    Chdir { path: String },
    /// Set the host name to `name`.
    SetHostname { name: String },
    /// Mount the proc file system on `/proc`.
    MountProc,
    /// Make the mount of `/` private, so that later mounts stay in this
    /// mount namespace.
    MountRootPrivate,
    /// Bind `path` onto itself, with the mounts below it.
    BindMount { path: String },
    /// Replace the process image by `program` run with `args`, keeping the
    /// environment.
    ExecKeepingEnv { program: String, args: Vec<String> },
    /// Replace the process image by `program` run with `args` and `env`.
    Exec { program: String, args: Vec<String>, env: Vec<String> },
    /// Print `message` on the error stream.
    Report { message: String },
}

/// An action with its strings taken by their views.
pub enum ActionView {
    PullImage,
    BuildImage { dst: Seq<char> },
    CopyFile { from: Seq<char>, to: Seq<char> },
    Daemonize,
    Unshare { namespaces: Namespaces },
    WriteFile { path: Seq<char>, contents: Seq<char> },
    RemoveFile { path: Seq<char> },
    CreateDirAll { path: Seq<char>, fatal: bool },
    Chroot { path: Seq<char> },
    Chdir { path: Seq<char> },
    SetHostname { name: Seq<char> },
    MountProc,
    MountRootPrivate,
    BindMount { path: Seq<char> },
    ExecKeepingEnv { program: Seq<char>, args: Seq<Seq<char>> },
    Exec { program: Seq<char>, args: Seq<Seq<char>>, env: Seq<Seq<char>> },
    Report { message: Seq<char> },
}

impl View for Action {
    type V = ActionView;

    open spec fn view(&self) -> ActionView {
        match self {
            Action::PullImage => ActionView::PullImage,
            Action::BuildImage { dst } => ActionView::BuildImage { dst: dst@ },
            Action::CopyFile { from, to } => ActionView::CopyFile { from: from@, to: to@ },
            Action::Daemonize => ActionView::Daemonize,
            Action::Unshare { namespaces } => ActionView::Unshare { namespaces: *namespaces },
            Action::WriteFile { path, contents } => ActionView::WriteFile {
                path: path@,
                contents: contents@,
            },
            Action::RemoveFile { path } => ActionView::RemoveFile { path: path@ },
            Action::CreateDirAll { path, fatal } => ActionView::CreateDirAll {
                path: path@,
                fatal: *fatal,
            },
            Action::Chroot { path } => ActionView::Chroot { path: path@ },
            Action::Chdir { path } => ActionView::Chdir { path: path@ },
            Action::SetHostname { name } => ActionView::SetHostname { name: name@ },
            Action::MountProc => ActionView::MountProc,
            Action::MountRootPrivate => ActionView::MountRootPrivate,
            Action::BindMount { path } => ActionView::BindMount { path: path@ },
            Action::ExecKeepingEnv { program, args } => ActionView::ExecKeepingEnv {
                program: program@,
                args: string_views(args@),
            },
            Action::Exec { program, args, env } => ActionView::Exec {
                program: program@,
                args: string_views(args@),
                env: string_views(env@),
            },
            Action::Report { message } => ActionView::Report { message: message@ },
        }
    }
}

/// The views of a sequence of actions.
pub open spec fn action_views(v: Seq<Action>) -> Seq<ActionView> {
    v.map_values(|a: Action| a@)
}

/// A copy of a vector of strings.
pub fn clone_strings(v: &Vec<String>) -> (r: Vec<String>)
    ensures
        string_views(r@) == string_views(v@),
{
    let mut r: Vec<String> = Vec::new();
    let mut i: usize = 0;
    while i < v.len()
        invariant
            i <= v@.len(),
            string_views(r@) == string_views(v@.take(i as int)),
        decreases v.len() - i,
    {
        let ghost before = r@;
        r.push(v[i].clone());
        assert(v@.take(i + 1) =~= v@.take(i as int).push(v@[i as int]));
        assert(string_views(r@) =~= string_views(before).push(v@[i as int]@));
        assert(string_views(v@.take(i + 1)) =~= string_views(v@.take(i as int)).push(v@[i as int]@));
        i = i + 1;
    }
    assert(v@.take(v@.len() as int) =~= v@);
    r
}

} // verus!
