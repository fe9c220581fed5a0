use vstd::prelude::*;
use vstd::string::StringExecFns;
use clap::{Arg, ArgAction, Command};
use crate::lines::views;

verus! {

/// clap's `ArgAction`: what an argument does when it is met.
#[verifier::external_type_specification]
pub struct ExArgAction(ArgAction);

/// One argument of the command-line grammar, as plain values.
pub struct ArgDecl {
    pub id: &'static str,
    pub action: ArgAction,
    pub short: Option<char>,
    pub value_name: Option<&'static str>,
    pub default_value: Option<&'static str>,
    pub help: &'static str,
    pub hyphen_values: bool,
    pub overrides: Vec<&'static str>,
    pub conflicts: Vec<&'static str>,
}

pub struct ArgDeclView {
    pub id: Seq<char>,
    pub action: ArgAction,
    pub short: Option<char>,
    pub value_name: Option<Seq<char>>,
    pub default_value: Option<Seq<char>>,
    pub help: Seq<char>,
    pub hyphen_values: bool,
    pub overrides: Seq<Seq<char>>,
    pub conflicts: Seq<Seq<char>>,
}

pub open spec fn opt_view(o: Option<&'static str>) -> Option<Seq<char>> {
    match o {
        Some(s) => Some(s@),
        None => None,
    }
}

pub open spec fn strs_view(v: Seq<&'static str>) -> Seq<Seq<char>> {
    v.map_values(|s: &'static str| s@)
}

impl View for ArgDecl {
    type V = ArgDeclView;

    open spec fn view(&self) -> ArgDeclView {
        ArgDeclView {
            id: self.id@,
            action: self.action,
            short: self.short,
            value_name: opt_view(self.value_name),
            default_value: opt_view(self.default_value),
            help: self.help@,
            hyphen_values: self.hyphen_values,
            overrides: strs_view(self.overrides@),
            conflicts: strs_view(self.conflicts@),
        }
    }
}

/// The command-line grammar of the program, as plain values.
pub struct Cli {
    name: &'static str,
    about: &'static str,
    version: &'static str,
    args: Vec<ArgDecl>,
}

pub struct CliView {
    pub name: Seq<char>,
    pub about: Seq<char>,
    pub version: Seq<char>,
    pub args: Seq<ArgDeclView>,
}

impl View for Cli {
    type V = CliView;

    closed spec fn view(&self) -> CliView {
        CliView {
            name: self.name@,
            about: self.about@,
            version: self.version@,
            args: self.args@.map_values(|d: ArgDecl| d@),
        }
    }
}

/// The grammar that the program declares: any number of file names (a name
/// may start with a hyphen; none given stands for the empty name), `-n` to
/// number every line, and `-b` to number the non-blank lines, which conflicts
/// with `-n`.
pub open spec fn minicat_cli() -> CliView {
    CliView {
        name: "minicat"@,
        about: "Rust version of the cat command"@,
        version: "0.1.0"@,
        args: seq![
            ArgDeclView {
                id: "files"@,
                action: ArgAction::Append,
                short: None,
                value_name: Some("FILES"@),
                default_value: Some(""@),
                help: "Files to read"@,
                hyphen_values: true,
                overrides: seq![],
                conflicts: seq![],
            },
            ArgDeclView {
                id: "number"@,
                action: ArgAction::SetTrue,
                short: Some('n'),
                value_name: None,
                default_value: None,
                help: "Numbers the lines"@,
                hyphen_values: false,
                overrides: seq!["number"@],
                conflicts: seq!["nonblank"@],
            },
            ArgDeclView {
                id: "nonblank"@,
                action: ArgAction::SetTrue,
                short: Some('b'),
                value_name: None,
                default_value: None,
                help: "Number only nonblank lines"@,
                hyphen_values: false,
                overrides: seq!["nonblank"@],
                conflicts: seq![],
            },
        ],
    }
}

/// The grammar `g` declares that the argument `a` conflicts with `b`.
pub open spec fn declares_conflict(g: CliView, a: Seq<char>, b: Seq<char>) -> bool {
    exists|i: int| 0 <= i < g.args.len() && #[trigger] g.args[i].id == a && g.args[i].conflicts.contains(b)
}

/// The outcome of parsing the command line `args` (the program's name first)
/// against the grammar [`minicat_cli`]: the file names, and whether `-n` and
/// `-b` were given; `None` where the parser refuses the arguments or is asked
/// for help or the version.
pub uninterp spec fn cli_parse(args: Seq<Seq<char>>) -> Option<(Seq<Seq<char>>, bool, bool)>;

/// Relies on clap's `Command::try_get_matches_from`, and on
/// `ArgMatches::get_many` and `ArgMatches::get_flag` to read the outcome. The
/// grammar is turned into clap's builder calls one field for one call; it is
/// [`minicat_cli`], whose ids all exist, whose short flags are not `-` and
/// whose flags use `SetTrue`, so neither building, parsing nor reading panics.
/// clap refuses a command line with two arguments declared to conflict, and a
/// refusal is handed on as clap's rendered message (`Display`) and exit code
/// (`Error::exit_code`: 2 where it prints to stderr, else 0).
#[verifier::external_body]
fn parse_with(cli: &Cli, args: &Vec<String>) -> (r: Result<(Vec<String>, bool, bool), UsageError>)
    requires
        cli@ == minicat_cli(),
    ensures
        r is Ok <==> cli_parse(views(args@)) is Some,
        r matches Ok((fs, n, b)) ==> cli_parse(views(args@)) == Some((views(fs@), n, b)),
        r matches Ok((fs, n, b)) ==> (declares_conflict(cli@, "number"@, "nonblank"@) ==> !(n
            && b)),
        r matches Err(e) ==> e.exit_code == 0 || e.exit_code == 2,
{
    let mut cmd = Command::new(cli.name).about(cli.about).version(cli.version);
    for d in &cli.args {
        cmd = cmd.arg(Arg::new(d.id).action(d.action.clone()).short(d.short).value_name(
            d.value_name).default_value(d.default_value).help(d.help).allow_hyphen_values(
            d.hyphen_values).overrides_with_all(d.overrides.clone()).conflicts_with_all(d.conflicts.clone()));
    }
    let m = cmd.try_get_matches_from(args).map_err(
        |e| UsageError { message: e.to_string(), exit_code: e.exit_code() },
    )?;
    Ok((m.get_many::<String>("files").into_iter().flatten().cloned().collect(),
        m.get_flag("number"), m.get_flag("nonblank")))
}

/// What a [`Config`] describes: the sources in order (the empty name stands
/// for standard input), and which lines get a number.
pub struct ConfigView {
    pub files: Seq<Seq<char>>,
    pub count_lines: bool,
    pub nonblank_number: bool,
}

/// The settings of one run.
#[derive(Debug)]
pub struct Config {
    files: Vec<String>,
    count_lines: bool,
    nonblank_number: bool,
}

/// What the command-line parser said when it did not hand back settings: a
/// refusal, or the help or version text that was asked for (exit code 0).
#[derive(Debug)]
pub struct UsageError {
    pub message: String,
    pub exit_code: i32,
}

/// Why the command line was not accepted.
#[derive(Debug)]
pub enum ArgsError {
    /// The parser refused the arguments, or was asked for help or the version.
    Usage(UsageError),
    /// Both "number all lines" and "number non-blank lines" were asked for.
    ConflictingFlags,
}

impl View for Config {
    type V = ConfigView;

    closed spec fn view(&self) -> ConfigView {
        ConfigView {
            files: views(self.files@),
            count_lines: self.count_lines,
            nonblank_number: self.nonblank_number,
        }
    }
}

/// The name that stands for standard input.
pub open spec fn stdin_name() -> Seq<char> {
    Seq::empty()
}

/// The sources read when `files` were named on the command line.
pub open spec fn sources_of(files: Seq<Seq<char>>) -> Seq<Seq<char>> {
    if files.len() == 0 {
        seq![stdin_name()]
    } else {
        files
    }
}

impl Config {
    /// At most one way of numbering is asked for, and there is a source.
    pub open spec fn wf(&self) -> bool {
        &&& !(self@.count_lines && self@.nonblank_number)
        &&& self@.files.len() > 0
    }

    /// The sources, in the order they are read.
    pub fn files(&self) -> (r: &Vec<String>)
        ensures
            views(r@) == self@.files,
    {
        &self.files
    }

    /// Whether every line gets a number.
    pub fn count_lines(&self) -> (r: bool)
        ensures
            r == self@.count_lines,
    {
        self.count_lines
    }

    /// Whether the non-blank lines get a number.
    pub fn nonblank_number(&self) -> (r: bool)
        ensures
            r == self@.nonblank_number,
    {
        self.nonblank_number
    }
}

/// The settings for the sources `files` and the two numbering flags.
pub fn config_from_flags(files: Vec<String>, count_lines: bool, nonblank_number: bool) -> (r:
    Result<Config, ArgsError>)
    ensures
        r is Err <==> count_lines && nonblank_number,
        r matches Err(e) ==> e is ConflictingFlags,
        r matches Ok(c) ==> c.wf() && c@ == (ConfigView {
            files: sources_of(views(files@)),
            count_lines,
            nonblank_number,
        }),
{
    if count_lines && nonblank_number {
        return Err(ArgsError::ConflictingFlags);
    }
    let mut files = files;
    if files.len() == 0 {
        files.push(String::new());
        assert(views(files@) =~= seq![stdin_name()]);
    }
    Ok(Config { files, count_lines, nonblank_number })
}

/// The command-line grammar of the program.
pub fn build_cli() -> (r: Cli)
    ensures
        r@ == minicat_cli(),
{
    let files = ArgDecl {
        id: "files",
        action: ArgAction::Append,
        short: None,
        value_name: Some("FILES"),
        default_value: Some(""),
        help: "Files to read",
        hyphen_values: true,
        overrides: vec![],
        conflicts: vec![],
    };
    let number = ArgDecl {
        id: "number",
        action: ArgAction::SetTrue,
        short: Some('n'),
        value_name: None,
        default_value: None,
        help: "Numbers the lines",
        hyphen_values: false,
        overrides: vec!["number"],
        conflicts: vec!["nonblank"],
    };
    let nonblank = ArgDecl {
        id: "nonblank",
        action: ArgAction::SetTrue,
        short: Some('b'),
        value_name: None,
        default_value: None,
        help: "Number only nonblank lines",
        hyphen_values: false,
        overrides: vec!["nonblank"],
        conflicts: vec![],
    };
    proof {
        assert(strs_view(files.overrides@) =~= seq![]);
        assert(strs_view(files.conflicts@) =~= seq![]);
        assert(strs_view(number.overrides@) =~= seq!["number"@]);
        assert(strs_view(number.conflicts@) =~= seq!["nonblank"@]);
        assert(strs_view(nonblank.overrides@) =~= seq!["nonblank"@]);
        assert(strs_view(nonblank.conflicts@) =~= seq![]);
        assert(files@ == minicat_cli().args[0]);
        assert(number@ == minicat_cli().args[1]);
        assert(nonblank@ == minicat_cli().args[2]);
    }
    let ghost decls = seq![files@, number@, nonblank@];
    let r = Cli {
        name: "minicat",
        about: "Rust version of the cat command",
        version: "0.1.0",
        args: vec![files, number, nonblank],
    };
    assert(r@.args =~= decls);
    assert(decls =~= minicat_cli().args);
    r
}

/// Reads the settings from the command line `args`, the program's name first.
pub fn get_args(args: &Vec<String>) -> (r: Result<Config, ArgsError>)
    ensures
        r matches Err(ArgsError::Usage(_)) <==> cli_parse(views(args@)) is None,
        cli_parse(views(args@)) is Some ==> r is Ok,
        r is Ok <==> (cli_parse(views(args@)) matches Some((fs, n, b)) && !(n && b)),
        r matches Ok(c) ==> c.wf() && (cli_parse(views(args@)) matches Some((fs, n, b)) && c@
            == (ConfigView { files: sources_of(fs), count_lines: n, nonblank_number: b })),
{
    let cli = build_cli();
    proof {
        assert(minicat_cli().args[1].id == "number"@);
        assert(minicat_cli().args[1].conflicts[0] == "nonblank"@);
        assert(declares_conflict(cli@, "number"@, "nonblank"@));
    }
    match parse_with(&cli, args) {
        Err(e) => Err(ArgsError::Usage(e)),
        Ok((files, count_lines, nonblank_number)) => config_from_flags(
            files,
            count_lines,
            nonblank_number,
        ),
    }
}

/// Whether the source `name` is standard input.
pub fn reads_stdin(name: &str) -> (r: bool)
    ensures
        r == (name@ == stdin_name()),
{
    let r = name.is_empty();
    assert(r == (name@ =~= stdin_name()));
    r
}

/// The report that the source `name` could not be opened, for the reason `reason`.
pub fn open_failure_message(name: &str, reason: &str) -> (r: String)
    ensures
        r@ == "Failed to open "@ + name@ + " due to "@ + reason@,
{
    let mut s = String::from_str("Failed to open ");
    s.append(name);
    s.append(" due to ");
    s.append(reason);
    s
}

} // verus!
