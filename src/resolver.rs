//! The session-name prompt: suggestion, validation, collisions.
use vstd::prelude::*;
use vstd::string::*;
use crate::input::{is_single, trim_line, trimmed};
use crate::names::{is_valid_name, name_error, validate_session_name, NameError};
use crate::paths::{final_segment, final_segment_of};

verus! {

/// How a session-name prompt ends.
#[derive(Debug, PartialEq, Eq)]
pub enum Outcome {
    /// Start a new session under this name.
    Create(String),
    /// Attach to the existing session of this name.
    Attach(String),
    /// The user quit.
    Cancelled,
}

/// An `Outcome` with its names as character sequences.
pub enum OutcomeModel {
    Create(Seq<char>),
    Attach(Seq<char>),
    Cancelled,
}

impl View for Outcome {
    type V = OutcomeModel;

    open spec fn view(&self) -> OutcomeModel {
        match self {
            Outcome::Create(n) => OutcomeModel::Create(n@),
            Outcome::Attach(n) => OutcomeModel::Attach(n@),
            Outcome::Cancelled => OutcomeModel::Cancelled,
        }
    }
}

/// Which question the name prompt is waiting on.
#[derive(Debug, PartialEq, Eq)]
pub enum NamePhase {
    /// No usable suggestion: asking for a name outright.
    AskName,
    /// Offering a suggested name, which Enter accepts.
    Offer(String),
    /// A candidate (second field) is taken: asking to attach or change;
    /// the first field is the suggestion to go back to.
    Collision(String, String),
}

/// A `NamePhase` with its names as character sequences.
pub enum PhaseModel {
    AskName,
    Offer(Seq<char>),
    Collision(Seq<char>, Seq<char>),
}

impl View for NamePhase {
    type V = PhaseModel;

    open spec fn view(&self) -> PhaseModel {
        match self {
            NamePhase::AskName => PhaseModel::AskName,
            NamePhase::Offer(s) => PhaseModel::Offer(s@),
            NamePhase::Collision(s, c) => PhaseModel::Collision(s@, c@),
        }
    }
}

/// What to show after a line of input.
#[derive(Debug, PartialEq, Eq)]
pub enum NameStep {
    /// The prompt is over.
    Done(Outcome),
    /// The name was refused for this reason; ask again.
    Refused(NameError),
    /// The answer to the collision question was not understood; back to
    /// the suggestion.
    InvalidChoice,
    /// Ask the question of the new phase.
    Ask,
}

/// A `NameStep` with its names as character sequences.
pub enum StepModel {
    Done(OutcomeModel),
    Refused(NameError),
    InvalidChoice,
    Ask,
}

impl View for NameStep {
    type V = StepModel;

    open spec fn view(&self) -> StepModel {
        match self {
            NameStep::Done(o) => StepModel::Done(o@),
            NameStep::Refused(e) => StepModel::Refused(*e),
            NameStep::InvalidChoice => StepModel::InvalidChoice,
            NameStep::Ask => StepModel::Ask,
        }
    }
}

/// The name suggested for a session started in directory `dir`: its final
/// segment, when that is a valid name.
pub open spec fn suggestion_for(dir: Seq<char>) -> Option<Seq<char>> {
    if is_valid_name(final_segment(dir)) {
        Some(final_segment(dir))
    } else {
        None
    }
}

/// The phase in which the prompt opens for directory `dir`.
pub open spec fn first_phase(dir: Seq<char>) -> PhaseModel {
    match suggestion_for(dir) {
        Some(s) => PhaseModel::Offer(s),
        None => PhaseModel::AskName,
    }
}

/// The candidate named by a (trimmed) answer to the offer of `suggestion`.
pub open spec fn candidate_of(suggestion: Seq<char>, input: Seq<char>) -> Seq<char> {
    if input.len() == 0 {
        suggestion
    } else {
        input
    }
}

/// One step of the name prompt: the next phase and what to show, given the
/// known session names and a trimmed line of input. Only a lower-case `q`
/// quits here; at the collision question only `a` and `c` are answers.
pub open spec fn name_transition(phase: PhaseModel, known: Set<Seq<char>>, input: Seq<char>) -> (
    PhaseModel,
    StepModel,
) {
    match phase {
        PhaseModel::AskName => {
            if input == seq!['q'] {
                (phase, StepModel::Done(OutcomeModel::Cancelled))
            } else {
                match name_error(input) {
                    Some(e) => (phase, StepModel::Refused(e)),
                    None => (PhaseModel::Offer(input), StepModel::Ask),
                }
            }
        },
        PhaseModel::Offer(s) => {
            if input == seq!['q'] {
                (phase, StepModel::Done(OutcomeModel::Cancelled))
            } else {
                let c = candidate_of(s, input);
                match name_error(c) {
                    Some(e) => (phase, StepModel::Refused(e)),
                    None => if known.contains(c) {
                        (PhaseModel::Collision(s, c), StepModel::Ask)
                    } else {
                        (phase, StepModel::Done(OutcomeModel::Create(c)))
                    },
                }
            }
        },
        PhaseModel::Collision(s, c) => {
            if input == seq!['a'] {
                (phase, StepModel::Done(OutcomeModel::Attach(c)))
            } else if input == seq!['c'] {
                (PhaseModel::Offer(s), StepModel::Ask)
            } else if input == seq!['q'] {
                (phase, StepModel::Done(OutcomeModel::Cancelled))
            } else {
                (PhaseModel::Offer(s), StepModel::InvalidChoice)
            }
        },
    }
}

/// The name prompt of one session-creation flow.
pub struct NameResolver {
    /// Names of the sessions that already exist.
    pub existing: Vec<String>,
    /// The question being asked.
    pub phase: NamePhase,
}

impl NameResolver {
    /// The existing session names as a set.
    pub open spec fn known(&self) -> Set<Seq<char>> {
        self.existing@.map_values(|n: String| n@).to_set()
    }

    /// Whether `c` names an existing session.
    fn is_known(&self, c: &str) -> (r: bool)
        ensures
            r == self.known().contains(c@),
    {
        let ghost names = self.existing@.map_values(|n: String| n@);
        let owned = c.to_owned();
        let mut i: usize = 0;
        while i < self.existing.len()
            invariant
                i <= self.existing@.len(),
                names == self.existing@.map_values(|n: String| n@),
                owned@ == c@,
                forall|j: int| 0 <= j < i ==> names[j] != c@,
            decreases self.existing@.len() - i,
        {
            if self.existing[i] == owned {
                assert(names[i as int] == c@);
                return true;
            }
            i = i + 1;
        }
        assert(!names.contains(c@));
        false
    }

    /// Opens the prompt for a session in directory `dir`, given the names of
    /// the sessions that exist.
    pub fn new(dir: &str, existing: Vec<String>) -> (r: NameResolver)
        ensures
            r.existing@ == existing@,
            r.phase@ == first_phase(dir@),
    {
        let seg = final_segment_of(dir);
        let phase = match validate_session_name(seg) {
            Ok(()) => NamePhase::Offer(seg.to_owned()),
            Err(_) => NamePhase::AskName,
        };
        NameResolver { existing, phase }
    }

    /// The name currently offered, if any.
    pub fn suggestion(&self) -> (r: Option<&String>)
        ensures
            r == match self.phase {
                NamePhase::AskName => None,
                NamePhase::Offer(s) => Some(&s),
                NamePhase::Collision(s, _) => Some(&s),
            },
    {
        match &self.phase {
            NamePhase::AskName => None,
            NamePhase::Offer(s) => Some(s),
            NamePhase::Collision(s, _) => Some(s),
        }
    }

    /// Takes a line of input whose surrounding whitespace is already gone.
    pub fn step_trimmed(&mut self, input: &str) -> (r: NameStep)
        ensures
            final(self).existing@ == old(self).existing@,
            (final(self).phase@, r@) == name_transition(old(self).phase@, old(self).known(), input@),
    {
        match &self.phase {
            NamePhase::AskName => {
                if is_single(input, 'q') {
                    NameStep::Done(Outcome::Cancelled)
                } else {
                    match validate_session_name(input) {
                        Err(e) => NameStep::Refused(e),
                        Ok(()) => {
                            self.phase = NamePhase::Offer(input.to_owned());
                            NameStep::Ask
                        },
                    }
                }
            },
            NamePhase::Offer(s) => {
                if is_single(input, 'q') {
                    NameStep::Done(Outcome::Cancelled)
                } else {
                    let c: String = if input.unicode_len() == 0 {
                        s.clone()
                    } else {
                        input.to_owned()
                    };
                    match validate_session_name(c.as_str()) {
                        Err(e) => NameStep::Refused(e),
                        Ok(()) => {
                            if self.is_known(c.as_str()) {
                                self.phase = NamePhase::Collision(s.clone(), c);
                                NameStep::Ask
                            } else {
                                NameStep::Done(Outcome::Create(c))
                            }
                        },
                    }
                }
            },
            NamePhase::Collision(s, c) => {
                if is_single(input, 'a') {
                    NameStep::Done(Outcome::Attach(c.clone()))
                } else if is_single(input, 'c') {
                    self.phase = NamePhase::Offer(s.clone());
                    NameStep::Ask
                } else if is_single(input, 'q') {
                    NameStep::Done(Outcome::Cancelled)
                } else {
                    self.phase = NamePhase::Offer(s.clone());
                    NameStep::InvalidChoice
                }
            },
        }
    }

    /// Takes a line of input as typed.
    pub fn step(&mut self, line: &str) -> (r: NameStep)
        ensures
            final(self).existing@ == old(self).existing@,
            (final(self).phase@, r@) == name_transition(
                old(self).phase@,
                old(self).known(),
                trimmed(line@),
            ),
    {
        let input = trim_line(line);
        self.step_trimmed(input)
    }
}

/// While a name is offered, a valid candidate that names no existing
/// session, typed or accepted with Enter, is created.
pub proof fn fresh_name_created(
    known: Set<Seq<char>>,
    suggestion: Seq<char>,
    input: Seq<char>,
    c: Seq<char>,
)
    requires
        !known.contains(c),
        is_valid_name(c),
        (input == c && c != seq!['q']) || (input.len() == 0 && suggestion == c),
    ensures
        name_transition(PhaseModel::Offer(suggestion), known, input).1 == StepModel::Done(
            OutcomeModel::Create(c),
        ),
{
}

/// The name of an existing session is never created, whatever the phase
/// and the input.
pub proof fn taken_name_never_created(
    phase: PhaseModel,
    known: Set<Seq<char>>,
    input: Seq<char>,
    c: Seq<char>,
)
    requires
        known.contains(c),
    ensures
        name_transition(phase, known, input).1 != StepModel::Done(OutcomeModel::Create(c)),
{
}

} // verus!
