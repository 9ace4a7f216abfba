use vstd::prelude::*;
use vstd::string::*;

use crate::text::concat_str;

verus! {

/// Why the home directory of the user is not at hand.
#[derive(PartialEq, Eq, Structural, Debug, Clone, Copy)]
pub enum HomeError {
    /// The system names no home directory.
    NotFound,
    /// The home directory's path is not valid Unicode.
    NotUnicode,
}

/// `dirs::home_dir`: the home directory of the user, as text. It comes from
/// the environment and the user database, so nothing is stated of it; a path
/// that is not valid Unicode gives `NotUnicode`.
#[verifier::external_body]
pub(crate) fn home_dir() -> Result<String, HomeError> {
    match dirs::home_dir() {
        Some(path) => match path.to_str() {
            Some(text) => Ok(text.to_string()),
            None => Err(HomeError::NotUnicode),
        },
        None => Err(HomeError::NotFound),
    }
}

/// Where cromwell keeps its files: its base directory, and the directories of
/// images and of containers.
#[derive(Debug)]
pub struct Config {
    pub base_dir: String,
    pub image_path: String,
    pub container_path: String,
}

/// The directory `.cromwell` in `home`.
pub open spec fn base_dir_of(home: Seq<char>) -> Seq<char> {
    home + "/.cromwell"@
}

/// The directory of images and containers: `path` when given, else
/// `.cromwell/containers` in `home`.
pub open spec fn store_path_of(home: Seq<char>, path: Option<Seq<char>>) -> Seq<char> {
    match path {
        Some(p) => p,
        None => home + "/.cromwell/containers"@,
    }
}

/// The configuration for the home directory `home` and the optional store
/// directory `path`.
pub open spec fn config_is(c: Config, home: Seq<char>, path: Option<Seq<char>>) -> bool {
    &&& c.base_dir@ == base_dir_of(home)
    &&& c.image_path@ == store_path_of(home, path)
    &&& c.container_path@ == store_path_of(home, path)
}

/// The view of an optional string slice.
pub open spec fn opt_view(s: Option<&str>) -> Option<Seq<char>> {
    match s {
        Some(x) => Some(x@),
        None => None,
    }
}

impl Config {
    /// The configuration for the home directory `home`; images and containers
    /// live in `path`, or in `.cromwell/containers` there.
    pub fn with_home(home: &str, path: Option<&str>) -> (c: Config)
        ensures
            config_is(c, home@, opt_view(path)),
    {
        let base_dir = concat_str(home, "/.cromwell");
        let store = match path {
            Some(p) => String::from_str(p),
            None => concat_str(home, "/.cromwell/containers"),
        };
        Config { base_dir, image_path: store.clone(), container_path: store }
    }

    /// The configuration for the user's home directory; `Err` when the home
    /// directory is not at hand.
    pub fn new(path: Option<&str>) -> (r: Result<Config, HomeError>)
        ensures
            r matches Ok(c) ==> exists|home: Seq<char>| #[trigger] config_is(c, home, opt_view(path)),
    {
        match home_dir() {
            Ok(home) => {
                let c = Config::with_home(home.as_str(), path);
                let ghost h = home@;
                assert(config_is(c, h, opt_view(path)));
                let r = Ok(c);
                assert(r matches Ok(c2) && config_is(c2, h, opt_view(path)));
                r
            },
            Err(e) => Err(e),
        }
    }
}

/// The base directory depends on the home directory alone: two
/// configurations for one home agree on it whatever store directory each was
/// given, it is `.cromwell` in that home, and the default store lies inside
/// it.
pub proof fn law_base_dir_ignores_store_path(
    c1: Config,
    c2: Config,
    home: Seq<char>,
    path1: Option<Seq<char>>,
    path2: Option<Seq<char>>,
)
    requires
        config_is(c1, home, path1),
        config_is(c2, home, path2),
    ensures
        c1.base_dir@ == c2.base_dir@,
        c1.base_dir@ == home + "/.cromwell"@,
        path1 is None ==> c1.image_path@ == c1.base_dir@ + "/containers"@,
        path1 matches Some(p) ==> c1.image_path@ == p && c1.container_path@ == p,
{
    assert(home + "/.cromwell/containers"@ =~= home + "/.cromwell"@ + "/containers"@) by {
        reveal_strlit("/.cromwell/containers");
        reveal_strlit("/.cromwell");
        reveal_strlit("/containers");
    }
}

} // verus!
