//! The command line: which options exist and what a list of arguments asks
//! for.
//!
//! Everything before the first `--` belongs to the launcher and is scanned
//! by `getopts`; everything after it is passed on to the binary that is run.

use crate::error::{Error, Failure};
use crate::text::{same, views};
use vstd::prelude::*;
use vstd::string::*;

verus! {

/// Whether an option takes an argument.
#[derive(Debug, Clone, Copy)]
pub enum Argument {
    /// The option takes no argument.
    No,
    /// The option requires an argument.
    Yes,
    /// The option may be given with or without an argument.
    Maybe,
}

/// How often an option may be given.
#[derive(Debug, Clone, Copy)]
pub enum Occurrence {
    /// Exactly once.
    Required,
    /// At most once.
    Optional,
    /// Any number of times.
    Multiple,
}

/// One declared option: its short and long name with what the usage text
/// says of it, and how it may be given.
pub ghost struct Group {
    pub short: Seq<char>,
    pub long: Seq<char>,
    pub description: Seq<char>,
    pub hint: Seq<char>,
    pub argument: Argument,
    pub occurrence: Occurrence,
}

/// What a set of declared options consists of.
pub ghost struct Table {
    /// The declared options, in the order of their declaration.
    pub groups: Seq<Group>,
    /// Whether long options may be written with a single dash.
    pub long_only: bool,
    /// Whether scanning stops at the first free argument.
    pub stop_at_first_free: bool,
}

/// What scanning a list of arguments has found.
pub ghost struct Found {
    /// For each name of a declared option, its occurrences in the order
    /// they were given, each with the argument it came with.
    pub given: Map<Seq<char>, Seq<Option<Seq<char>>>>,
    /// The arguments that belong to no option, in order.
    pub free: Seq<Seq<char>>,
}

/// Whether a name is a single character of one byte.
pub open spec fn single_ascii(name: Seq<char>) -> bool {
    name.len() == 1 && '\0' <= name[0] <= '\u{7f}'
}

/// Whether the names of an option may be declared: the short one is empty
/// or a single character of one byte, the long one is empty or longer than
/// one character.
pub open spec fn declarable(short: Seq<char>, long: Seq<char>) -> bool {
    (short.len() == 0 || single_ascii(short)) && long.len() != 1
}

/// Whether every declared option has declarable names and at least one of
/// them.
pub open spec fn well_named(groups: Seq<Group>) -> bool {
    forall|i: int|
        0 <= i < groups.len() ==> declarable((#[trigger] groups[i]).short, groups[i].long) && (
        groups[i].short.len() > 0 || groups[i].long.len() > 0)
}

/// Whether `name` is the short or the long name of a declared option.
pub open spec fn names(groups: Seq<Group>, name: Seq<char>) -> bool {
    name.len() > 0 && exists|i: int|
        0 <= i < groups.len() && ((#[trigger] groups[i]).short == name || groups[i].long == name)
}

/// The option set of the `getopts` crate, which the verifier knows by name
/// only.
#[verifier::external_type_specification]
#[verifier::external_body]
pub struct ExOptions(getopts::Options);

/// The scan result of the `getopts` crate, which the verifier knows by name
/// only.
#[verifier::external_type_specification]
#[verifier::external_body]
pub struct ExMatches(getopts::Matches);

/// What a `getopts::Options` holds: its option groups and its two style
/// settings.
pub uninterp spec fn table_of(options: getopts::Options) -> Table;

/// What a `getopts::Matches` holds.
pub uninterp spec fn found_in(matches: getopts::Matches) -> Found;

/// What `getopts::Options::parse` makes of a list of arguments under a set
/// of declared options: what it has found, or the text of its refusal.
pub uninterp spec fn scan(table: Table, args: Seq<Seq<char>>) -> Result<Found, Seq<char>>;

/// The text that `getopts::Options::usage` lays out for a set of declared
/// options under a brief.
pub uninterp spec fn usage_of(table: Table, brief: Seq<char>) -> Seq<char>;

/// `getopts::Options::new` makes a set without options, in which flags and
/// free arguments may be mixed and long options need two dashes.
pub assume_specification[ getopts::Options::new ]() -> (options: getopts::Options)
    ensures
        table_of(options) == (Table {
            groups: Seq::empty(),
            long_only: false,
            stop_at_first_free: false,
        }),
;

/// `getopts::Matches::opt_present` tells whether the option of that name
/// was given at least once. It panics on a name that is not declared.
pub assume_specification[ getopts::Matches::opt_present ](
    matches: &getopts::Matches,
    name: &str,
) -> (present: bool)
    requires
        found_in(*matches).given.dom().contains(name@),
    ensures
        present == (found_in(*matches).given[name@].len() > 0),
;

/// `getopts::Matches::opt_str` gives the argument that the first occurrence
/// of the option came with, and `None` where the option was not given or
/// came without one. It panics on a name that is not declared.
pub assume_specification[ getopts::Matches::opt_str ](
    matches: &getopts::Matches,
    name: &str,
) -> (value: Option<String>)
    requires
        found_in(*matches).given.dom().contains(name@),
    ensures
        match value {
            Some(text) => found_in(*matches).given[name@].len() > 0 && found_in(
                *matches,
            ).given[name@][0] == Some(text@),
            None => found_in(*matches).given[name@].len() == 0 || found_in(
                *matches,
            ).given[name@][0] is None,
        },
;

/// What `getopts::Options::usage` puts between the brief and the rows of
/// the options.
pub open spec fn options_heading() -> Seq<char> {
    "\n\nOptions:\n"@
}

/// `getopts::Options::usage` lays out the brief, a heading and one row per
/// declared option. Nothing is proved of the rows: the contract gives the
/// text a name and adds that it begins with the brief and the heading. It
/// panics on a short name wider than one column, which a declarable name
/// never is.
pub assume_specification[ getopts::Options::usage ](
    options: &getopts::Options,
    brief: &str,
) -> (text: String)
    requires
        well_named(table_of(*options).groups),
    ensures
        text@ == usage_of(table_of(*options), brief@),
        (brief@ + options_heading()).is_prefix_of(text@),
;

/// Calls `getopts::Options::opt`, which appends one option group with
/// exactly the given names, texts and kinds and leaves the rest of the set
/// as it was. It panics on names that are not declarable.
#[verifier::external_body]
fn declare(
    options: &mut getopts::Options,
    short: &str,
    long: &str,
    description: &str,
    hint: &str,
    argument: Argument,
    occurrence: Occurrence,
)
    requires
        declarable(short@, long@),
    ensures
        table_of(*final(options)) == (Table {
            groups: table_of(*old(options)).groups.push(
                Group {
                    short: short@,
                    long: long@,
                    description: description@,
                    hint: hint@,
                    argument,
                    occurrence,
                },
            ),
            ..table_of(*old(options))
        }),
{
    let has_arg = match argument {
        Argument::No => getopts::HasArg::No,
        Argument::Yes => getopts::HasArg::Yes,
        Argument::Maybe => getopts::HasArg::Maybe,
    };
    let occur = match occurrence {
        Occurrence::Required => getopts::Occur::Req,
        Occurrence::Optional => getopts::Occur::Optional,
        Occurrence::Multiple => getopts::Occur::Multi,
    };
    options.opt(short, long, description, hint, has_arg, occur);
}

/// Calls `getopts::Options::optflag`, which appends one option group that
/// takes no argument, may be given at most once and has an empty hint. It
/// panics on names that are not declarable.
#[verifier::external_body]
fn declare_flag(options: &mut getopts::Options, short: &str, long: &str, description: &str)
    requires
        declarable(short@, long@),
    ensures
        table_of(*final(options)) == (Table {
            groups: table_of(*old(options)).groups.push(
                Group {
                    short: short@,
                    long: long@,
                    description: description@,
                    hint: Seq::empty(),
                    argument: Argument::No,
                    occurrence: Occurrence::Optional,
                },
            ),
            ..table_of(*old(options))
        }),
{
    options.optflag(short, long, description);
}

/// Calls `getopts::Options::parse`. Nothing is proved of the scan itself:
/// the contract gives its outcome a name, a refusal as the text that
/// `getopts` shows for it, and adds that every name of a declared option
/// can be asked for in what was found. It panics on a group without any
/// name.
#[verifier::external_body]
fn scan_arguments(options: &getopts::Options, args: &Vec<String>) -> (scanned: Result<
    getopts::Matches,
    String,
>)
    requires
        well_named(table_of(*options).groups),
    ensures
        match scanned {
            Ok(matches) => scan(table_of(*options), views(args@)) == Ok::<Found, Seq<char>>(
                found_in(matches),
            ) && forall|name: Seq<char>| #[trigger]
                names(table_of(*options).groups, name) ==> found_in(matches).given.dom().contains(
                    name,
                ),
            Err(refusal) => scan(table_of(*options), views(args@)) == Err::<Found, Seq<char>>(
                refusal@,
            ),
        },
{
    match options.parse(args) {
        Ok(matches) => Ok(matches),
        Err(fail) => Err(fail.to_string()),
    }
}

/// Copies the free arguments out of a `getopts::Matches`, in order.
#[verifier::external_body]
fn free_arguments(matches: &getopts::Matches) -> (free: Vec<String>)
    ensures
        views(free@) == found_in(*matches).free,
{
    matches.free.clone()
}

/// The options of the launcher: `-r`/`--run`, which may name the binary to
/// run, and `-h`/`--help`.
pub open spec fn launcher_table() -> Table {
    Table {
        groups: seq![
            Group {
                short: "r"@,
                long: "run"@,
                description: "Run a binary after building"@,
                hint: "Hint? Wut?"@,
                argument: Argument::Maybe,
                occurrence: Occurrence::Optional,
            },
            Group {
                short: "h"@,
                long: "help"@,
                description: "print this help menu"@,
                hint: Seq::empty(),
                argument: Argument::No,
                occurrence: Occurrence::Optional,
            },
        ],
        long_only: false,
        stop_at_first_free: false,
    }
}

/// Declares the options of the launcher.
fn launcher_options() -> (options: getopts::Options)
    ensures
        table_of(options) == launcher_table(),
        well_named(launcher_table().groups),
        names(launcher_table().groups, "h"@),
        names(launcher_table().groups, "run"@),
{
    let mut options = getopts::Options::new();
    proof {
        reveal_strlit("r");
        reveal_strlit("run");
        reveal_strlit("h");
        reveal_strlit("help");
    }
    declare(
        &mut options,
        "r",
        "run",
        "Run a binary after building",
        "Hint? Wut?",
        Argument::Maybe,
        Occurrence::Optional,
    );
    declare_flag(&mut options, "h", "help", "print this help menu");
    proof {
        let groups = launcher_table().groups;
        assert(table_of(options).groups =~= groups);
        assert(groups[0].long == "run"@ && groups[1].short == "h"@);
    }
    options
}

/// The place of the first `--` among the arguments, or their number where
/// there is none.
pub open spec fn cut(args: Seq<Seq<char>>) -> int
    decreases args.len(),
{
    if args.len() == 0 {
        0
    } else if args[0] == "--"@ {
        0
    } else {
        1 + cut(args.drop_first())
    }
}

/// The arguments meant for the launcher: those before the first `--`.
pub open spec fn own_part(args: Seq<Seq<char>>) -> Seq<Seq<char>> {
    args.take(cut(args))
}

/// The arguments meant for the binary: those after the first `--`.
pub open spec fn trailing_part(args: Seq<Seq<char>>) -> Seq<Seq<char>> {
    if cut(args) < args.len() {
        args.skip(cut(args) + 1)
    } else {
        Seq::empty()
    }
}

/// The cut lies within the arguments, at a `--` unless it lies at their end.
pub proof fn lemma_cut_bounds(args: Seq<Seq<char>>)
    ensures
        0 <= cut(args) <= args.len(),
        cut(args) < args.len() ==> args[cut(args)] == "--"@,
        forall|j: int| 0 <= j < cut(args) ==> args[j] != "--"@,
    decreases args.len(),
{
    if args.len() > 0 && args[0] != "--"@ {
        let rest = args.drop_first();
        lemma_cut_bounds(rest);
        assert forall|j: int| 0 <= j < cut(args) implies args[j] != "--"@ by {
            if j > 0 {
                assert(args[j] == rest[j - 1]);
            }
        }
        if cut(args) < args.len() {
            assert(args[cut(args)] == rest[cut(rest)]);
        }
    }
}

/// A place before which no argument is `--`, and which is at a `--` or at
/// the end, is the cut.
proof fn lemma_cut_is(args: Seq<Seq<char>>, i: int)
    requires
        0 <= i <= args.len(),
        forall|j: int| 0 <= j < i ==> args[j] != "--"@,
        i < args.len() ==> args[i] == "--"@,
    ensures
        cut(args) == i,
    decreases args.len(),
{
    if args.len() > 0 && i > 0 {
        let rest = args.drop_first();
        assert(args[0] != "--"@);
        assert forall|j: int| 0 <= j < i - 1 implies rest[j] != "--"@ by {
            assert(rest[j] == args[j + 1]);
        }
        lemma_cut_is(rest, i - 1);
    }
}

/// Splits the arguments at the first `--`: those before it and those after
/// it. Without a `--` all arguments come first and none second.
pub fn split_arguments(args: &Vec<String>) -> (parts: (Vec<String>, Vec<String>))
    ensures
        views(parts.0@) == own_part(views(args@)),
        views(parts.1@) == trailing_part(views(args@)),
{
    let mut own: Vec<String> = Vec::new();
    let mut trailing: Vec<String> = Vec::new();
    let mut i: usize = 0;
    while i < args.len() && !same(args[i].as_str(), "--")
        invariant
            i <= args@.len(),
            own@.len() == i,
            forall|j: int| 0 <= j < i ==> own@[j]@ == args@[j]@,
            forall|j: int| 0 <= j < i ==> views(args@)[j] != "--"@,
        decreases args@.len() - i,
    {
        own.push(args[i].clone());
        i += 1;
    }
    proof {
        lemma_cut_is(views(args@), i as int);
        assert(views(own@) =~= views(args@).take(i as int));
    }
    if i < args.len() {
        i += 1;
        let ghost start: int = i as int;
        while i < args.len()
            invariant
                0 < start <= i <= args@.len(),
                trailing@.len() == i - start,
                forall|j: int| 0 <= j < i - start ==> trailing@[j]@ == args@[start + j]@,
            decreases args@.len() - i,
        {
            trailing.push(args[i].clone());
            i += 1;
        }
        proof {
            assert(views(trailing@) =~= views(args@).skip(start));
        }
    } else {
        proof {
            assert(views(trailing@) =~= Seq::<Seq<char>>::empty());
        }
    }
    (own, trailing)
}

/// What the launcher reads out of its own arguments.
#[derive(Debug, PartialEq, Eq)]
pub struct Flags {
    /// Whether help was asked for.
    pub help: bool,
    /// Whether a run was asked for.
    pub run: bool,
    /// The binary that the run option named, if it named one.
    pub binary: Option<String>,
    /// The arguments that belong to no option, in order.
    pub free: Vec<String>,
}

/// The mathematical content of [`Flags`].
pub ghost struct FlagsModel {
    pub help: bool,
    pub run: bool,
    pub binary: Option<Seq<char>>,
    pub free: Seq<Seq<char>>,
}

/// The characters of a string that may be missing.
pub open spec fn text_of(text: Option<String>) -> Option<Seq<char>> {
    match text {
        Some(text) => Some(text@),
        None => None,
    }
}

impl View for Flags {
    type V = FlagsModel;

    open spec fn view(&self) -> FlagsModel {
        FlagsModel {
            help: self.help,
            run: self.run,
            binary: text_of(self.binary),
            free: views(self.free@),
        }
    }
}

/// A run asked for on the command line.
#[derive(Debug, PartialEq, Eq)]
pub struct RunRequest {
    /// The binary to run, where the command line names one.
    pub binary: Option<String>,
    /// The arguments to pass on to the binary.
    pub args: Vec<String>,
}

/// What a command line asks for.
#[derive(Debug, PartialEq, Eq)]
pub enum Request {
    /// Show the usage text and do nothing else.
    Help,
    /// Build a target, the named one or else the default one, and run a
    /// binary afterwards where a run is asked for.
    Build { target: Option<String>, run: Option<RunRequest> },
}

/// The mathematical content of a [`RunRequest`].
pub ghost struct RunModel {
    pub binary: Option<Seq<char>>,
    pub args: Seq<Seq<char>>,
}

/// The mathematical content of a [`Request`].
pub ghost enum RequestModel {
    Help,
    Build { target: Option<Seq<char>>, run: Option<RunModel> },
}

impl View for RunRequest {
    type V = RunModel;

    open spec fn view(&self) -> RunModel {
        RunModel { binary: text_of(self.binary), args: views(self.args@) }
    }
}

impl View for Request {
    type V = RequestModel;

    open spec fn view(&self) -> RequestModel {
        match self {
            Request::Help => RequestModel::Help,
            Request::Build { target, run } => RequestModel::Build {
                target: text_of(*target),
                run: match run {
                    Some(run) => Some(run@),
                    None => None,
                },
            },
        }
    }
}

/// What the flags ask for. Help wins over everything else. Otherwise the
/// first free argument names the target, further ones are ignored, and the
/// trailing arguments are kept only for a run.
pub open spec fn request_of(flags: FlagsModel, trailing: Seq<Seq<char>>) -> RequestModel {
    if flags.help {
        RequestModel::Help
    } else {
        RequestModel::Build {
            target: if flags.free.len() > 0 {
                Some(flags.free[0])
            } else {
                None
            },
            run: if flags.run {
                Some(RunModel { binary: flags.binary, args: trailing })
            } else {
                None
            },
        }
    }
}

/// Turns the flags and the trailing arguments into a request.
pub fn request_of_flags(flags: Flags, trailing: Vec<String>) -> (request: Request)
    ensures
        request@ == request_of(flags@, views(trailing@)),
{
    if flags.help {
        return Request::Help;
    }
    let target = if flags.free.len() > 0 {
        Some(flags.free[0].clone())
    } else {
        None
    };
    let run = if flags.run {
        Some(RunRequest { binary: flags.binary, args: trailing })
    } else {
        None
    };
    Request::Build { target, run }
}

/// The flags in what a scan under the launcher's options has found.
pub open spec fn flags_of(found: Found) -> FlagsModel {
    FlagsModel {
        help: found.given["h"@].len() > 0,
        run: found.given["run"@].len() > 0,
        binary: if found.given["run"@].len() > 0 {
            found.given["run"@][0]
        } else {
            None
        },
        free: found.free,
    }
}

/// Reads the launcher's flags out of what a scan has found.
fn read_flags(matches: &getopts::Matches) -> (flags: Flags)
    requires
        found_in(*matches).given.dom().contains("h"@),
        found_in(*matches).given.dom().contains("run"@),
    ensures
        flags@ == flags_of(found_in(*matches)),
{
    let help = matches.opt_present("h");
    let run = matches.opt_present("run");
    let binary = matches.opt_str("run");
    let free = free_arguments(matches);
    Flags { help, run, binary, free }
}

/// What a command line asks for, given what scanning its own part has led
/// to: a refusal is an [`Failure::InvalidArguments`] with the refusal's
/// text.
pub open spec fn request_of_scan(
    scanned: Result<Found, Seq<char>>,
    trailing: Seq<Seq<char>>,
) -> Result<RequestModel, Failure> {
    match scanned {
        Ok(found) => Ok(request_of(flags_of(found), trailing)),
        Err(refusal) => Err(Failure::InvalidArguments(refusal)),
    }
}

/// Reads a command line, given without the program's own name.
///
/// The arguments before the first `--` are scanned under the launcher's
/// options, and what the scan finds is turned into a request as
/// [`request_of`] says; the arguments after the `--` are passed on with a
/// run. A command line that the scan refuses is an
/// [`Error::InvalidArguments`].
pub fn parse_command_line(args: &Vec<String>) -> (parsed: Result<Request, Error>)
    ensures
        match request_of_scan(
            scan(launcher_table(), own_part(views(args@))),
            trailing_part(views(args@)),
        ) {
            Ok(request) => parsed matches Ok(read) && read@ == request,
            Err(failure) => parsed matches Err(error) && error@ == failure,
        },
{
    let (own, trailing) = split_arguments(args);
    let options = launcher_options();
    match scan_arguments(&options, &own) {
        Ok(matches) => Ok(request_of_flags(read_flags(&matches), trailing)),
        Err(refusal) => Err(Error::InvalidArguments(refusal)),
    }
}

/// The line that heads the usage text.
pub open spec fn brief_of(program: Seq<char>) -> Seq<char> {
    "Usage: "@ + program + " FILE [options]"@
}

/// The usage text for a program invoked as `program`: the brief and a
/// heading, then the launcher's options as `getopts` lays them out.
pub fn usage(program: &str) -> (text: String)
    ensures
        text@ == usage_of(launcher_table(), brief_of(program@)),
        (brief_of(program@) + options_heading()).is_prefix_of(text@),
{
    let mut brief = "Usage: ".to_owned();
    brief.append(program);
    brief.append(" FILE [options]");
    let options = launcher_options();
    options.usage(brief.as_str())
}

} // verus!
