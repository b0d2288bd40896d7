//! The command lines handed to the multiplexer.
use vstd::prelude::*;
use vstd::string::*;
use crate::path_prompt::{path_line_step, PathStepModel};
use crate::resolver::{name_transition, Outcome, OutcomeModel, PhaseModel, StepModel};

verus! {

/// The multiplexer's program name.
pub const MULTIPLEXER: &'static str = "tmux";

/// Arguments that list the sessions, one name per line.
pub open spec fn list_command() -> Seq<Seq<char>> {
    seq!["ls"@, "-F"@, "#S"@]
}

/// Arguments that start a session `name` in directory `dir`.
pub open spec fn create_command(name: Seq<char>, dir: Seq<char>) -> Seq<Seq<char>> {
    seq!["new-session"@, "-s"@, name, "-c"@, dir]
}

/// Arguments that attach to session `name`.
pub open spec fn attach_command(name: Seq<char>) -> Seq<Seq<char>> {
    seq!["attach"@, "-t"@, name]
}

/// The command an outcome of the name prompt calls for, when the session
/// would start in `dir`; none when the user quit.
pub open spec fn outcome_command(o: OutcomeModel, dir: Seq<char>) -> Option<Seq<Seq<char>>> {
    match o {
        OutcomeModel::Create(n) => Some(create_command(n, dir)),
        OutcomeModel::Attach(n) => Some(attach_command(n)),
        OutcomeModel::Cancelled => None,
    }
}

/// The arguments that list the sessions.
pub fn list_sessions_args() -> (r: Vec<String>)
    ensures
        r@.map_values(|a: String| a@) == list_command(),
{
    let r = vec![String::from_str("ls"), String::from_str("-F"), String::from_str("#S")];
    assert(r@.map_values(|a: String| a@) =~= list_command());
    r
}

/// The arguments that start session `name` in directory `dir`.
pub fn new_session_args(name: &str, dir: &str) -> (r: Vec<String>)
    ensures
        r@.map_values(|a: String| a@) == create_command(name@, dir@),
{
    let r = vec![
        String::from_str("new-session"),
        String::from_str("-s"),
        name.to_owned(),
        String::from_str("-c"),
        dir.to_owned(),
    ];
    assert(r@.map_values(|a: String| a@) =~= create_command(name@, dir@));
    r
}

/// The arguments that attach to session `name`.
pub fn attach_args(name: &str) -> (r: Vec<String>)
    ensures
        r@.map_values(|a: String| a@) == attach_command(name@),
{
    let r = vec![String::from_str("attach"), String::from_str("-t"), name.to_owned()];
    assert(r@.map_values(|a: String| a@) =~= attach_command(name@));
    r
}

/// The arguments an outcome of the name prompt calls for, for a session
/// that would start in `dir`.
pub fn outcome_args(outcome: &Outcome, dir: &str) -> (r: Option<Vec<String>>)
    ensures
        r matches Some(v) ==> outcome_command(outcome@, dir@) == Some(
            v@.map_values(|a: String| a@),
        ),
        r is None ==> outcome_command(outcome@, dir@) is None,
{
    match outcome {
        Outcome::Create(n) => Some(new_session_args(n.as_str(), dir)),
        Outcome::Attach(n) => Some(attach_args(n.as_str())),
        Outcome::Cancelled => None,
    }
}

/// Typing `q` at any prompt (the directory, the name, the collision
/// question) cancels, and a cancelled flow calls for no command.
pub proof fn quit_cancels(phase: PhaseModel, known: Set<Seq<char>>, dir: Seq<char>)
    ensures
        path_line_step(seq!['q']) == PathStepModel::Cancelled,
        name_transition(phase, known, seq!['q']).1 == StepModel::Done(OutcomeModel::Cancelled),
        outcome_command(OutcomeModel::Cancelled, dir) is None,
{
    assert(seq!['q'][0] != seq!['a'][0]);
    assert(seq!['q'][0] != seq!['c'][0]);
}

} // verus!
