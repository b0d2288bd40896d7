//! The directory prompt, as decisions on what the user typed and on what
//! the filesystem answered.
use vstd::prelude::*;
use vstd::string::*;
use crate::input::{is_path_quit, is_path_quit_input, trim_line, trimmed};
use crate::paths::{ancestors, parent_path, valid_up_to, valid_up_to_of};

verus! {

/// Why the directory prompt asks again.
#[derive(Debug, PartialEq, Eq)]
pub enum PathProblem {
    /// Nothing was typed.
    Empty,
    /// The path exists but is not a directory.
    NotADirectory,
    /// The path does not exist; this is its deepest ancestor that does.
    ValidUpTo(String),
}

/// What the directory prompt does next.
#[derive(Debug, PartialEq, Eq)]
pub enum PathStep {
    /// The prompt is over with this canonical directory.
    Resolved(String),
    /// The user quit.
    Cancelled,
    /// Look this path up in the filesystem.
    Lookup(String),
    /// Report the problem and ask again.
    Retry(PathProblem),
}

/// A `PathStep` with its paths as character sequences.
pub enum PathStepModel {
    Resolved(Seq<char>),
    Cancelled,
    Lookup(Seq<char>),
    RetryEmpty,
    RetryNotADirectory,
    RetryValidUpTo(Seq<char>),
}

impl View for PathStep {
    type V = PathStepModel;

    open spec fn view(&self) -> PathStepModel {
        match self {
            PathStep::Resolved(p) => PathStepModel::Resolved(p@),
            PathStep::Cancelled => PathStepModel::Cancelled,
            PathStep::Lookup(p) => PathStepModel::Lookup(p@),
            PathStep::Retry(PathProblem::Empty) => PathStepModel::RetryEmpty,
            PathStep::Retry(PathProblem::NotADirectory) => PathStepModel::RetryNotADirectory,
            PathStep::Retry(PathProblem::ValidUpTo(a)) => PathStepModel::RetryValidUpTo(a@),
        }
    }
}

/// The step after a trimmed line typed at the directory prompt.
pub open spec fn path_line_step(input: Seq<char>) -> PathStepModel {
    if is_path_quit(input) {
        PathStepModel::Cancelled
    } else if input.len() == 0 {
        PathStepModel::RetryEmpty
    } else {
        PathStepModel::Lookup(input)
    }
}

/// Reads a line typed at the directory prompt, surrounding whitespace
/// already gone.
pub fn on_path_input(input: &str) -> (r: PathStep)
    ensures
        r@ == path_line_step(input@),
{
    if is_path_quit_input(input) {
        PathStep::Cancelled
    } else if input.unicode_len() == 0 {
        PathStep::Retry(PathProblem::Empty)
    } else {
        PathStep::Lookup(input.to_owned())
    }
}

/// Reads a line typed at the directory prompt.
pub fn on_path_line(line: &str) -> (r: PathStep)
    ensures
        r@ == path_line_step(trimmed(line@)),
{
    on_path_input(trim_line(line))
}

/// The step once a path was canonicalized to `canonical`; `is_dir` tells
/// whether that is a directory.
pub fn on_path_found(canonical: String, is_dir: bool) -> (r: PathStep)
    ensures
        is_dir ==> r@ == PathStepModel::Resolved(canonical@),
        !is_dir ==> r@ == PathStepModel::RetryNotADirectory,
{
    if is_dir {
        PathStep::Resolved(canonical)
    } else {
        PathStep::Retry(PathProblem::NotADirectory)
    }
}

/// The step once the path typed as `path` was found not to exist;
/// `ancestors` are those of that path anchored at the working directory,
/// parent first, and `exists` tells for each whether it exists. When none
/// does, the path is reported as typed.
pub fn on_path_missing(path: &str, ancestors: &Vec<String>, exists: &Vec<bool>) -> (r: PathStep)
    requires
        ancestors@.len() == exists@.len(),
    ensures
        r@ == PathStepModel::RetryValidUpTo(
            valid_up_to(path@, ancestors@.map_values(|a: String| a@), exists@),
        ),
{
    PathStep::Retry(PathProblem::ValidUpTo(valid_up_to_of(path, ancestors, exists)))
}

/// For a missing path whose parent is missing too but whose grandparent
/// exists, the grandparent is reported, whatever the path was typed as.
pub proof fn grandparent_reported(typed: Seq<char>, path: Seq<char>, exists: Seq<bool>)
    requires
        exists.len() == ancestors(path).len(),
        exists.len() >= 2,
        !exists[0],
        exists[1],
    ensures
        parent_path(path) matches Some(q) && parent_path(q) matches Some(g) && valid_up_to(
            typed,
            ancestors(path),
            exists,
        ) == g,
{
    let anc = ancestors(path);
    assert(parent_path(path) is Some);
    let q = parent_path(path)->Some_0;
    assert(anc == seq![q] + ancestors(q));
    assert(ancestors(q).len() >= 1);
    assert(parent_path(q) is Some);
    let g = parent_path(q)->Some_0;
    assert(ancestors(q) == seq![g] + ancestors(g));
    assert(anc.drop_first()[0] == g);
    assert(exists.drop_first()[0]);
    assert(valid_up_to(typed, anc, exists) == valid_up_to(
        typed,
        anc.drop_first(),
        exists.drop_first(),
    ));
}

} // verus!
