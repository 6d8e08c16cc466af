use vstd::prelude::*;
use vstd::string::*;

verus! {

/// Options chosen on the command line.
#[derive(Debug, Clone)]
pub struct CliOptions {
    /// Path of the Lua entry point.
    pub config_path: String,
}

/// Configuration handed to the runtime.
#[derive(Debug, Clone)]
pub struct RuntimeConfig {
    /// Path of the Lua entry point.
    pub entrypoint: String,
}

/// Why a command line was refused.
#[derive(Debug, Clone)]
pub enum CliError {
    /// `--config` or `-c` stood last, with no path after it.
    MissingConfigValue,
    /// An argument that is not an option of this program.
    UnknownArgument(String),
}

/// What a command line means, stated over the characters of its arguments.
pub enum ParsedCommandLine {
    Config(Seq<char>),
    MissingValue,
    Unknown(Seq<char>),
}

/// The entry point used when no `--config` is given.
pub open spec fn default_config_path() -> Seq<char> {
    "lua/widgets/status_bar.lua"@
}

/// `--config` and `-c` both name the configuration path.
pub open spec fn is_config_flag(arg: Seq<char>) -> bool {
    arg == "--config"@ || arg == "-c"@
}

/// Meaning of `args[i..]`, given the path chosen by the arguments before `i`.
/// A later `--config` overrides an earlier one.
pub open spec fn parse_from(args: Seq<Seq<char>>, i: int, path: Option<Seq<char>>) -> ParsedCommandLine
    decreases args.len() - i,
{
    if i >= args.len() || i < 0 {
        ParsedCommandLine::Config(
            match path {
                Some(p) => p,
                None => default_config_path(),
            },
        )
    } else if is_config_flag(args[i]) {
        if i + 1 >= args.len() {
            ParsedCommandLine::MissingValue
        } else {
            parse_from(args, i + 2, Some(args[i + 1]))
        }
    } else {
        ParsedCommandLine::Unknown(args[i])
    }
}

/// The characters of each argument.
pub open spec fn arg_views(args: Seq<String>) -> Seq<Seq<char>> {
    args.map_values(|a: String| a@)
}

/// Meaning of a whole command line (program name already removed).
pub open spec fn parse_spec(args: Seq<String>) -> ParsedCommandLine {
    parse_from(arg_views(args), 0, None)
}

/// From position `i` on, a command line that means a path keeps meaning a
/// path when `flag p` is appended, and then means `p`.
proof fn lemma_append_config_from(
    args: Seq<Seq<char>>,
    i: int,
    path: Option<Seq<char>>,
    flag: Seq<char>,
    p: Seq<char>,
)
    requires
        0 <= i <= args.len(),
        is_config_flag(flag),
        parse_from(args, i, path) is Config,
    ensures
        parse_from(args + seq![flag, p], i, path) == ParsedCommandLine::Config(p),
    decreases args.len() - i,
{
    let ext = args + seq![flag, p];
    if i == args.len() {
        assert(ext[i] == flag);
        assert(ext[i + 1] == p);
        assert(parse_from(ext, i + 2, Some(p)) == ParsedCommandLine::Config(p));
    } else {
        assert(ext[i] == args[i]);
        if is_config_flag(args[i]) && i + 1 < args.len() {
            assert(ext[i + 1] == args[i + 1]);
            lemma_append_config_from(args, i + 2, Some(args[i + 1]), flag, p);
        }
    }
}

/// The last `--config` (or `-c`) wins: appending `--config p` to a command
/// line that is accepted makes `p` the configuration path.
pub proof fn lemma_last_config_wins(args: Seq<Seq<char>>, flag: Seq<char>, p: Seq<char>)
    requires
        is_config_flag(flag),
        parse_from(args, 0, None) is Config,
    ensures
        parse_from(args + seq![flag, p], 0, None) == ParsedCommandLine::Config(p),
{
    lemma_append_config_from(args, 0, None, flag, p);
}

/// From position `i` on, a command line that means a path means the unknown
/// argument `a` once `a`, which is not `--config` or `-c`, is appended.
proof fn lemma_append_unknown_from(args: Seq<Seq<char>>, i: int, path: Option<Seq<char>>, a: Seq<char>)
    requires
        0 <= i <= args.len(),
        !is_config_flag(a),
        parse_from(args, i, path) is Config,
    ensures
        parse_from(args.push(a), i, path) == ParsedCommandLine::Unknown(a),
    decreases args.len() - i,
{
    let ext = args.push(a);
    if i == args.len() {
        assert(ext[i] == a);
    } else {
        assert(ext[i] == args[i]);
        if is_config_flag(args[i]) && i + 1 < args.len() {
            assert(ext[i + 1] == args[i + 1]);
            lemma_append_unknown_from(args, i + 2, Some(args[i + 1]), a);
        }
    }
}

/// Every argument in an option's place must be an option: appending anything
/// but `--config` or `-c` to an accepted command line makes it refused, with
/// that argument named, however many paths were given before it.
pub proof fn lemma_unknown_argument_refused(args: Seq<Seq<char>>, a: Seq<char>)
    requires
        !is_config_flag(a),
        parse_from(args, 0, None) is Config,
    ensures
        parse_from(args.push(a), 0, None) == ParsedCommandLine::Unknown(a),
{
    lemma_append_unknown_from(args, 0, None, a);
}

/// An option without its value is refused: appending `--config` or `-c` to an
/// accepted command line leaves the path missing.
pub proof fn lemma_trailing_flag_missing_value(args: Seq<Seq<char>>, flag: Seq<char>)
    requires
        is_config_flag(flag),
        parse_from(args, 0, None) is Config,
    ensures
        parse_from(args.push(flag), 0, None) == ParsedCommandLine::MissingValue,
{
    lemma_append_flag_from(args, 0, None, flag);
}

/// From position `i` on, a command line that means a path is missing a
/// value once a lone `flag` is appended.
proof fn lemma_append_flag_from(args: Seq<Seq<char>>, i: int, path: Option<Seq<char>>, flag: Seq<char>)
    requires
        0 <= i <= args.len(),
        is_config_flag(flag),
        parse_from(args, i, path) is Config,
    ensures
        parse_from(args.push(flag), i, path) == ParsedCommandLine::MissingValue,
    decreases args.len() - i,
{
    let ext = args.push(flag);
    if i == args.len() {
        assert(ext[i] == flag);
    } else {
        assert(ext[i] == args[i]);
        if is_config_flag(args[i]) && i + 1 < args.len() {
            assert(ext[i + 1] == args[i + 1]);
            lemma_append_flag_from(args, i + 2, Some(args[i + 1]), flag);
        }
    }
}

/// A command line that starts with anything but `--config` or `-c` is
/// refused, naming its first argument.
pub proof fn lemma_first_argument_unknown(args: Seq<Seq<char>>)
    requires
        args.len() > 0,
        !is_config_flag(args[0]),
    ensures
        parse_from(args, 0, None) == ParsedCommandLine::Unknown(args[0]),
{
}

/// Without arguments the default entry point is used.
pub proof fn lemma_no_arguments_default()
    ensures
        parse_from(Seq::<Seq<char>>::empty(), 0, None) == ParsedCommandLine::Config(default_config_path()),
{
}

impl CliError {
    /// Text of the error, as the program reports it.
    pub fn message(&self) -> (r: String)
        ensures
            r@ == match self {
                CliError::MissingConfigValue => "--config requires a path"@,
                CliError::UnknownArgument(a) => "unknown argument: "@ + a@,
            },
    {
        match self {
            CliError::MissingConfigValue => String::from_str("--config requires a path"),
            CliError::UnknownArgument(a) => String::from_str("unknown argument: ").concat(a.as_str()),
        }
    }
}

impl CliOptions {
    /// Reads the arguments that follow the program name.
    pub fn parse_args(args: &Vec<String>) -> (r: Result<CliOptions, CliError>)
        ensures
            match parse_spec(args@) {
                ParsedCommandLine::Config(p) => r matches Ok(o) && o.config_path@ == p,
                ParsedCommandLine::MissingValue => r matches Err(CliError::MissingConfigValue),
                ParsedCommandLine::Unknown(a) => r matches Err(CliError::UnknownArgument(s))
                    && s@ == a,
            },
    {
        let ghost views = arg_views(args@);
        let long_flag = String::from_str("--config");
        let short_flag = String::from_str("-c");
        let mut path: Option<String> = None;
        let mut i: usize = 0;
        while i < args.len()
            invariant
                views == arg_views(args@),
                long_flag@ == "--config"@,
                short_flag@ == "-c"@,
                i <= args.len() + 1,
                parse_from(views, 0, None) == parse_from(
                    views,
                    i as int,
                    match path {
                        Some(p) => Some(p@),
                        None => None,
                    },
                ),
            decreases args.len() + 1 - i,
        {
            let arg = &args[i];
            assert(views[i as int] == arg@);
            if *arg == long_flag || *arg == short_flag {
                if i + 1 >= args.len() {
                    return Err(CliError::MissingConfigValue);
                }
                assert(views[i + 1] == args@[i + 1]@);
                path = Some(args[i + 1].clone());
                i = i + 2;
            } else {
                return Err(CliError::UnknownArgument(arg.clone()));
            }
        }
        match path {
            Some(p) => Ok(CliOptions { config_path: p }),
            None => Ok(CliOptions { config_path: String::from_str("lua/widgets/status_bar.lua") }),
        }
    }
}

impl From<CliOptions> for RuntimeConfig {
    fn from(value: CliOptions) -> (r: Self) {
        RuntimeConfig { entrypoint: value.config_path }
    }
}

impl vstd::std_specs::convert::FromSpecImpl<CliOptions> for RuntimeConfig {
    open spec fn obeys_from_spec() -> bool {
        true
    }

    open spec fn from_spec(v: CliOptions) -> Self {
        RuntimeConfig { entrypoint: v.config_path }
    }
}

} // verus!
