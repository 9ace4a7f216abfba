use vstd::prelude::*;
use vstd::utf8::is_ascii_chars;

use crate::plan::string_views;

verus! {

#[verifier::external_type_specification]
#[verifier::external_body]
pub struct ExOptions(getopts::Options);

#[verifier::external_type_specification]
#[verifier::external_body]
pub struct ExMatches(getopts::Matches);

/// Whether an option takes an argument, as getopts' `HasArg` says.
#[derive(PartialEq, Eq, Structural, Debug, Clone, Copy)]
pub enum ArgKind {
    Yes,
    No,
    Maybe,
}

/// How often an option may occur, as getopts' `Occur` says.
#[derive(PartialEq, Eq, Structural, Debug, Clone, Copy)]
pub enum Occurrence {
    Required,
    Optional,
    Multiple,
}

/// One declared option: its short name, its long name, whether it takes an
/// argument and how often it may occur.
pub type OptionGroup = (Seq<char>, Seq<char>, ArgKind, Occurrence);

/// The options that a `getopts::Options` declares, in order.
pub uninterp spec fn option_groups(opts: getopts::Options) -> Seq<OptionGroup>;

/// Whether a `getopts::Options` parses in its default way: free arguments and
/// options may be mixed, and only arguments that start with `--` are long
/// options.
pub uninterp spec fn default_parsing(opts: getopts::Options) -> bool;

/// The values that a `getopts::Matches` holds for each name it answers to:
/// one entry per occurrence of the option, with the option's argument if it
/// took one.
pub uninterp spec fn matched_values(m: getopts::Matches) -> Map<Seq<char>, Seq<Option<Seq<char>>>>;

/// What `getopts::Options::parse` makes of `args` under the options `groups`,
/// parsing in the default way: the values of each option name, or why it
/// fails.
pub uninterp spec fn getopts_parse(groups: Seq<OptionGroup>, args: Seq<Seq<char>>) -> Result<Map<Seq<char>, Seq<Option<Seq<char>>>>, OptionsErrorView>;

/// Why getopts refuses arguments, with the name of the option concerned, as
/// getopts' `Fail` says.
pub enum OptionsError {
    /// The option takes an argument and none was given.
    ArgumentMissing(String),
    /// The option is not declared.
    UnrecognizedOption(String),
    /// A required option is absent.
    OptionMissing(String),
    /// An option that may occur once occurs more often.
    OptionDuplicated(String),
    /// An option that takes no argument was given one.
    UnexpectedArgument(String),
}

/// An `OptionsError` with its option name taken by its view.
pub enum OptionsErrorView {
    ArgumentMissing(Seq<char>),
    UnrecognizedOption(Seq<char>),
    OptionMissing(Seq<char>),
    OptionDuplicated(Seq<char>),
    UnexpectedArgument(Seq<char>),
}

impl View for OptionsError {
    type V = OptionsErrorView;

    open spec fn view(&self) -> OptionsErrorView {
        match self {
            OptionsError::ArgumentMissing(n) => OptionsErrorView::ArgumentMissing(n@),
            OptionsError::UnrecognizedOption(n) => OptionsErrorView::UnrecognizedOption(n@),
            OptionsError::OptionMissing(n) => OptionsErrorView::OptionMissing(n@),
            OptionsError::OptionDuplicated(n) => OptionsErrorView::OptionDuplicated(n@),
            OptionsError::UnexpectedArgument(n) => OptionsErrorView::UnexpectedArgument(n@),
        }
    }
}

/// Names that getopts accepts for an option: a short name of one ASCII
/// character or none, a long name of two or more characters or none, and not
/// both empty.
pub open spec fn valid_option_names(short: Seq<char>, long: Seq<char>) -> bool {
    &&& short.len() <= 1
    &&& is_ascii_chars(short)
    &&& long.len() != 1
    &&& is_ascii_chars(long)
    &&& short.len() + long.len() > 0
}

/// `getopts::Options::new`: a set of options that declares none and parses
/// in the default way.
#[verifier::external_body]
fn options_new() -> (opts: getopts::Options)
    ensures
        option_groups(opts) == Seq::<OptionGroup>::empty(),
        default_parsing(opts),
{
    getopts::Options::new()
}

/// `getopts::Options::optopt`: declares one more option, taking an argument
/// and occurring at most once; the way of parsing stays. It panics on names
/// that `valid_option_names` rules out.
#[verifier::external_body]
fn add_optopt(opts: &mut getopts::Options, short: &str, long: &str, desc: &str, hint: &str)
    requires
        valid_option_names(short@, long@),
    ensures
        option_groups(*final(opts)) == option_groups(*old(opts)).push(
            (short@, long@, ArgKind::Yes, Occurrence::Optional),
        ),
        default_parsing(*final(opts)) == default_parsing(*old(opts)),
{
    opts.optopt(short, long, desc, hint);
}

/// `getopts::Options::optflag`: declares one more option, taking no argument
/// and occurring at most once; the way of parsing stays. It panics on names
/// that `valid_option_names` rules out.
#[verifier::external_body]
fn add_optflag(opts: &mut getopts::Options, short: &str, long: &str, desc: &str)
    requires
        valid_option_names(short@, long@),
    ensures
        option_groups(*final(opts)) == option_groups(*old(opts)).push(
            (short@, long@, ArgKind::No, Occurrence::Optional),
        ),
        default_parsing(*final(opts)) == default_parsing(*old(opts)),
{
    opts.optflag(short, long, desc);
}

/// `getopts::Options::parse`, with its `Fail` turned into an `OptionsError`
/// variant for variant, on options declared with valid names (others
/// make it panic) that parse in the default way: succeeds exactly where `getopts_parse` gives
/// values, and its matches then hold those values; each declared long name of
/// two or more characters and each declared one-character short name is one
/// the matches answer to. Which values come out of which arguments is left to
/// the name.
#[verifier::external_body]
fn parse_args(opts: &getopts::Options, args: &[String]) -> (r: Result<getopts::Matches, OptionsError>)
    requires
        default_parsing(*opts),
        forall|i: int|
            0 <= i < option_groups(*opts).len() ==> valid_option_names(
                #[trigger] option_groups(*opts)[i].0,
                option_groups(*opts)[i].1,
            ),
    ensures
        (r is Ok) == (getopts_parse(option_groups(*opts), string_views(args@)) is Ok),
        r matches Ok(m) ==> matched_values(m) == getopts_parse(option_groups(*opts), string_views(args@))->Ok_0,
        r matches Err(e) ==> getopts_parse(option_groups(*opts), string_views(args@))->Err_0 == e@,
        r matches Ok(m) ==> forall|i: int|
            #![trigger option_groups(*opts)[i]]
            0 <= i < option_groups(*opts).len() ==> {
                &&& option_groups(*opts)[i].1.len() > 1 ==> matched_values(m).contains_key(option_groups(*opts)[i].1)
                &&& (option_groups(*opts)[i].0.len() == 1 && is_ascii_chars(option_groups(*opts)[i].0))
                    ==> matched_values(m).contains_key(option_groups(*opts)[i].0)
            },
{
    match opts.parse(args) {
        Ok(m) => Ok(m),
        Err(getopts::Fail::ArgumentMissing(n)) => Err(OptionsError::ArgumentMissing(n)),
        Err(getopts::Fail::UnrecognizedOption(n)) => Err(OptionsError::UnrecognizedOption(n)),
        Err(getopts::Fail::OptionMissing(n)) => Err(OptionsError::OptionMissing(n)),
        Err(getopts::Fail::OptionDuplicated(n)) => Err(OptionsError::OptionDuplicated(n)),
        Err(getopts::Fail::UnexpectedArgument(n)) => Err(OptionsError::UnexpectedArgument(n)),
    }
}

/// `getopts::Matches::opt_present`: whether the option `name` occurred. It
/// panics on a name that the matches do not answer to.
#[verifier::external_body]
pub fn opt_present(m: &getopts::Matches, name: &str) -> (r: bool)
    requires
        matched_values(*m).contains_key(name@),
    ensures
        r == (matched_values(*m)[name@].len() > 0),
{
    m.opt_present(name)
}

/// `getopts::Matches::opt_str`: the argument of the first occurrence of the
/// option `name`, if it occurred with one. It panics on a name that the
/// matches do not answer to.
#[verifier::external_body]
pub fn opt_str(m: &getopts::Matches, name: &str) -> (r: Option<String>)
    requires
        matched_values(*m).contains_key(name@),
    ensures
        r is Some == (matched_values(*m)[name@].len() > 0 && matched_values(*m)[name@][0] is Some),
        r matches Some(s) ==> s@ == matched_values(*m)[name@][0]->0,
{
    m.opt_str(name)
}

/// The options of `cromwell network`: `-n`/`--name` with the container's name,
/// and the flags `--clean`, `--create-bridge` and `--delete-bridge`.
pub open spec fn network_option_groups() -> Seq<OptionGroup> {
    seq![
        ("n"@, "name"@, ArgKind::Yes, Occurrence::Optional),
        (""@, "clean"@, ArgKind::No, Occurrence::Optional),
        (""@, "create-bridge"@, ArgKind::No, Occurrence::Optional),
        (""@, "delete-bridge"@, ArgKind::No, Occurrence::Optional),
    ]
}

/// Parses the arguments of `cromwell network`, the program's name first.
pub fn get_network_options(args: &Vec<String>) -> (r: Result<getopts::Matches, OptionsError>)
    requires
        args@.len() >= 1,
    ensures
        (r is Ok) == (getopts_parse(network_option_groups(), string_views(args@.skip(1))) is Ok),
        r matches Ok(m) ==> matched_values(m) == getopts_parse(
            network_option_groups(),
            string_views(args@.skip(1)),
        )->Ok_0,
        r matches Err(e) ==> getopts_parse(network_option_groups(), string_views(args@.skip(1)))->Err_0 == e@,
        r matches Ok(m) ==> {
            &&& matched_values(m).contains_key("name"@)
            &&& matched_values(m).contains_key("clean"@)
            &&& matched_values(m).contains_key("create-bridge"@)
            &&& matched_values(m).contains_key("delete-bridge"@)
        },
{
    proof {
        reveal_strlit("n");
        reveal_strlit("name");
        reveal_strlit("");
        reveal_strlit("clean");
        reveal_strlit("create-bridge");
        reveal_strlit("delete-bridge");
    }
    let mut opts = options_new();
    add_optopt(&mut opts, "n", "name", "set container name", "CONTAINER_NAME");
    add_optflag(&mut opts, "", "clean", "cleanup network interface");
    add_optflag(&mut opts, "", "create-bridge", "create ace0 bridge");
    add_optflag(&mut opts, "", "delete-bridge", "delete ace0 bridge");
    assert(option_groups(opts) =~= network_option_groups());
    proof {
        let g = option_groups(opts);
        assert forall|i: int| 0 <= i < g.len() implies valid_option_names(#[trigger] g[i].0, g[i].1) by {
            assert(g[i] == network_option_groups()[i]);
        }
    }
    let rest = args.as_slice().split_at(1).1;
    assert(rest@ =~= args@.skip(1));
    let r = parse_args(&opts, rest);
    proof {
        if r is Ok {
            let g = option_groups(opts);
            assert(g[1].1 == "clean"@);
            assert(g[0].1 == "name"@);
            assert(g[2].1 == "create-bridge"@);
            assert(g[3].1 == "delete-bridge"@);
        }
    }
    r
}

} // verus!
