//! The program's own command line.
use vstd::prelude::*;
use vstd::string::*;

verus! {

/// The program's version.
pub const VERSION: &'static str = "0.1.0";

/// The help text.
pub const USAGE: &'static str = "tm - tmux session manager

USAGE:
    tm [OPTIONS]

Lists the tmux sessions, then attaches to the one chosen or creates a new
session in a chosen directory.

OPTIONS:
    -h, --help       Print this help and exit
    -V, --version    Print the version and exit
";

/// What the program was asked to do.
#[derive(Debug, PartialEq, Eq)]
pub enum CliAction {
    /// Run the interactive flow.
    Interactive,
    /// Print the help text.
    Help,
    /// Print the version.
    Version,
    /// An argument that is not understood.
    Unknown(String),
}

/// A `CliAction` with its argument as a character sequence.
pub enum CliModel {
    Interactive,
    Help,
    Version,
    Unknown(Seq<char>),
}

impl View for CliAction {
    type V = CliModel;

    open spec fn view(&self) -> CliModel {
        match self {
            CliAction::Interactive => CliModel::Interactive,
            CliAction::Help => CliModel::Help,
            CliAction::Version => CliModel::Version,
            CliAction::Unknown(a) => CliModel::Unknown(a@),
        }
    }
}

/// Whether `a` is one of the flags the program knows.
pub open spec fn is_known_flag(a: Seq<char>) -> bool {
    a == "-h"@ || a == "--help"@ || a == "-V"@ || a == "--version"@
}

/// The first argument of `args` that is not a known flag, if any.
pub open spec fn first_unknown(args: Seq<Seq<char>>) -> Option<Seq<char>>
    decreases args.len(),
{
    if args.len() == 0 {
        None
    } else if !is_known_flag(args[0]) {
        Some(args[0])
    } else {
        first_unknown(args.drop_first())
    }
}

/// The action for the arguments `args` (program name left out): any
/// argument that is not a known flag is an error; otherwise the first flag
/// decides.
pub open spec fn cli_action(args: Seq<Seq<char>>) -> CliModel {
    if args.len() == 0 {
        CliModel::Interactive
    } else if first_unknown(args) is Some {
        CliModel::Unknown(first_unknown(args)->Some_0)
    } else if args[0] == "-h"@ || args[0] == "--help"@ {
        CliModel::Help
    } else {
        CliModel::Version
    }
}

/// Whether `a` is a help flag, a version flag, or neither (`None`).
fn classify(a: &String) -> (r: Option<bool>)
    ensures
        r == Some(true) <==> (a@ == "-h"@ || a@ == "--help"@),
        r == Some(false) <==> (a@ == "-V"@ || a@ == "--version"@),
        r is None <==> !is_known_flag(a@),
{
    proof {
        reveal_strlit("-h");
        reveal_strlit("--help");
        reveal_strlit("-V");
        reveal_strlit("--version");
    }
    assert("-V"@[1] != "-h"@[1]);
    assert("--version"@.len() != "--help"@.len());
    if *a == String::from_str("-h") || *a == String::from_str("--help") {
        Some(true)
    } else if *a == String::from_str("-V") || *a == String::from_str("--version") {
        Some(false)
    } else {
        None
    }
}

/// Reads the program's arguments, its own name left out.
pub fn parse_args(args: &Vec<String>) -> (r: CliAction)
    ensures
        r@ == cli_action(args@.map_values(|a: String| a@)),
{
    let ghost all = args@.map_values(|a: String| a@);
    if args.len() == 0 {
        return CliAction::Interactive;
    }
    let mut i: usize = 0;
    assert(all.subrange(0, all.len() as int) =~= all);
    while i < args.len()
        invariant
            i <= args@.len(),
            all == args@.map_values(|a: String| a@),
            first_unknown(all) == first_unknown(all.subrange(i as int, all.len() as int)),
        decreases args@.len() - i,
    {
        let ghost rest = all.subrange(i as int, all.len() as int);
        assert(rest[0] == args@[i as int]@);
        if classify(&args[i]).is_none() {
            return CliAction::Unknown(args[i].clone());
        }
        assert(rest.drop_first() =~= all.subrange(i + 1, all.len() as int));
        i = i + 1;
    }
    assert(all.subrange(i as int, all.len() as int) =~= Seq::<Seq<char>>::empty());
    assert(all[0] == args@[0]@);
    match classify(&args[0]) {
        Some(true) => CliAction::Help,
        _ => CliAction::Version,
    }
}

/// The line printed for the version flag.
pub fn version_line() -> (r: String)
    ensures
        r@ == "tm "@ + VERSION@,
{
    let mut r = String::from_str("tm ");
    r.append(VERSION);
    r
}

/// The error line for an argument that is not understood.
pub fn unknown_argument_message(arg: &str) -> (r: String)
    ensures
        r@ == "Unknown argument: "@ + arg@,
{
    let mut r = String::from_str("Unknown argument: ");
    r.append(arg);
    r
}

} // verus!
