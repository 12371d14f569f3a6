//! Plans: the candidates to try for one operation, and the decisions taken
//! while they are probed and run.
//!
//! The caller probes and runs the commands; after each step it reports what
//! happened and is told what to do next.

use vstd::prelude::*;

use crate::command::{candidate_views, CandidateView, Command, ToolCandidate};
use crate::error::Error;

verus! {

/// Everything to try and to clean up for one operation.
#[derive(Debug)]
pub struct Plan {
    /// The candidates, most preferred first.
    pub candidates: Vec<ToolCandidate>,
    /// The file to create and to connect to the standard output of the last
    /// process of the pipeline, if the tool writes its result there.
    pub stdout: Option<String>,
    /// Whether what the tools print is discarded.
    pub silent: bool,
    /// The directory in which the tools are run; `None` for the directory
    /// that the caller is in.
    pub directory: Option<String>,
    /// A command to run after the pipeline has succeeded.
    pub follow_up: Option<Command>,
    /// A file to remove at the end, whatever the outcome.
    pub temporary: Option<String>,
    /// The file that the operation writes; it is removed unless the
    /// operation succeeds.
    pub output: Option<String>,
}

/// A plan as texts.
pub struct PlanView {
    pub candidates: Seq<CandidateView>,
    pub stdout: Option<Seq<char>>,
    pub silent: bool,
    pub directory: Option<Seq<char>>,
    pub follow_up: Option<Seq<Seq<char>>>,
    pub temporary: Option<Seq<char>>,
    pub output: Option<Seq<char>>,
}

impl View for Plan {
    type V = PlanView;

    open spec fn view(&self) -> PlanView {
        PlanView {
            candidates: candidate_views(self.candidates@),
            stdout: match self.stdout {
                Some(s) => Some(s@),
                None => None,
            },
            silent: self.silent,
            directory: match self.directory {
                Some(s) => Some(s@),
                None => None,
            },
            follow_up: match self.follow_up {
                Some(c) => Some(c@),
                None => None,
            },
            temporary: match self.temporary {
                Some(s) => Some(s@),
                None => None,
            },
            output: match self.output {
                Some(s) => Some(s@),
                None => None,
            },
        }
    }
}

/// How a run ended.
#[derive(Debug, Clone, Copy, PartialEq, Eq, Structural, Hash)]
pub enum Outcome {
    /// The last process exited with this code.
    Exited(i32),
    /// The last process ended without an exit code, as when a signal kills it.
    Killed,
    /// A process could not be started.
    SpawnFailed,
}

/// The exit status that stands for a run without an exit code.
pub const FAILURE_CODE: i32 = 1;

impl Outcome {
    /// Whether the run succeeded: it exited with code 0.
    pub open spec fn is_clean(self) -> bool {
        self == Outcome::Exited(0)
    }

    /// The exit status to report: the tool's own code, or the failure code
    /// where there is none.
    pub open spec fn exit_code_of(self) -> i32 {
        match self {
            Outcome::Exited(code) => code,
            _ => FAILURE_CODE,
        }
    }

    /// The error that the outcome amounts to, if any.
    pub open spec fn failure_of(self) -> Option<Error> {
        match self {
            Outcome::Exited(code) => if code == 0 {
                None
            } else {
                Some(Error::ToolNonZeroExit(code))
            },
            Outcome::Killed => Some(Error::ToolKilledBySignal),
            Outcome::SpawnFailed => Some(Error::ToolSpawnFailure),
        }
    }

    /// Tells whether the run succeeded.
    pub fn clean(self) -> (r: bool)
        ensures
            r == self.is_clean(),
    {
        match self {
            Outcome::Exited(code) => code == 0,
            _ => false,
        }
    }

    /// The exit status to report.
    pub fn exit_code(self) -> (r: i32)
        ensures
            r == self.exit_code_of(),
            self.is_clean() <==> r == 0,
    {
        match self {
            Outcome::Exited(code) => code,
            _ => FAILURE_CODE,
        }
    }

    /// The error that the outcome amounts to, if any.
    pub fn failure(self) -> (r: Option<Error>)
        ensures
            r == self.failure_of(),
            r is None <==> self.is_clean(),
    {
        match self {
            Outcome::Exited(code) => if code == 0 {
                None
            } else {
                Some(Error::ToolNonZeroExit(code))
            },
            Outcome::Killed => Some(Error::ToolKilledBySignal),
            Outcome::SpawnFailed => Some(Error::ToolSpawnFailure),
        }
    }
}

/// How an operation ends: the exit status, and what to remove.
#[derive(Debug, Clone, Copy, PartialEq, Eq, Structural, Hash)]
pub struct Verdict {
    pub code: i32,
    /// Whether the plan's output file is to be removed.
    pub remove_output: bool,
    /// Whether the plan's temporary file is to be removed.
    pub remove_temporary: bool,
    pub failure: Option<Error>,
}

/// Where the work on a plan stands.
#[derive(Debug, Clone, Copy, PartialEq, Eq, Structural, Hash)]
pub enum Cursor {
    /// The probe of the candidate with this index is running.
    Probing(usize),
    /// The pipeline of the candidate with this index is running.
    Running(usize),
    /// The follow-up command is running.
    FollowingUp,
    /// Nothing is left to do.
    Done,
}

/// What the caller is to do next.
#[derive(Debug, Clone, Copy, PartialEq, Eq, Structural, Hash)]
pub enum Action {
    /// Run the probe of the candidate with this index and report whether it
    /// exited cleanly.
    Probe(usize),
    /// Run the pipeline of the candidate with this index and report how it
    /// ended.
    Run(usize),
    /// Run the follow-up command and report how it ended.
    FollowUp,
    /// Clean up as the verdict says and stop.
    Finish(Verdict),
}

/// What the caller reports.
#[derive(Debug, Clone, Copy, PartialEq, Eq, Structural, Hash)]
pub enum Event {
    /// The probe ended; `true` for a clean exit, `false` for anything else,
    /// a probe that could not be started included.
    Probed(bool),
    /// The pipeline or the follow-up command ended.
    Finished(Outcome),
}

impl Plan {
    /// Whether the plan can always be carried through: it has a candidate,
    /// every candidate but the last is probed, and the last is not.
    pub open spec fn well_formed(&self) -> bool {
        &&& self.candidates@.len() >= 1
        &&& forall|i: int|
            0 <= i < self.candidates@.len() ==> ((#[trigger] self.candidates@[i]).probe is Some
                <==> i < self.candidates@.len() - 1)
    }

    /// How the operation ends after `outcome`: the output is removed unless
    /// the outcome is a clean exit, the temporary file in any case.
    pub open spec fn verdict_of(&self, outcome: Outcome) -> Verdict {
        Verdict {
            code: outcome.exit_code_of(),
            remove_output: !outcome.is_clean(),
            remove_temporary: self.temporary is Some,
            failure: outcome.failure_of(),
        }
    }

    /// What trying the candidate with index `i` starts with: its probe if it
    /// has one, else its pipeline. Beyond the last candidate nothing can be
    /// run, and the operation ends as if a tool could not be started.
    pub open spec fn attempt_of(&self, i: int) -> (Cursor, Action) {
        if i < 0 || i >= self.candidates@.len() {
            (Cursor::Done, Action::Finish(self.verdict_of(Outcome::SpawnFailed)))
        } else if self.candidates@[i].probe is Some {
            (Cursor::Probing(i as usize), Action::Probe(i as usize))
        } else {
            (Cursor::Running(i as usize), Action::Run(i as usize))
        }
    }

    /// The step that follows `event` at `cursor`.
    ///
    /// A probe that succeeds selects its candidate, one that fails passes to
    /// the next candidate. A pipeline that ends cleanly is followed by the
    /// follow-up command, if there is one; every other end of a pipeline or
    /// of the follow-up command ends the operation. No candidate is tried
    /// after a pipeline has run. An event that does not fit the cursor ends
    /// the operation as if a tool could not be started.
    pub open spec fn step_of(&self, cursor: Cursor, event: Event) -> (Cursor, Action) {
        match (cursor, event) {
            (Cursor::Probing(i), Event::Probed(usable)) => {
                if i >= self.candidates@.len() {
                    (Cursor::Done, Action::Finish(self.verdict_of(Outcome::SpawnFailed)))
                } else if usable {
                    (Cursor::Running(i), Action::Run(i))
                } else {
                    self.attempt_of(i + 1)
                }
            },
            (Cursor::Running(i), Event::Finished(outcome)) => {
                if outcome.is_clean() && self.follow_up is Some {
                    (Cursor::FollowingUp, Action::FollowUp)
                } else {
                    (Cursor::Done, Action::Finish(self.verdict_of(outcome)))
                }
            },
            (Cursor::FollowingUp, Event::Finished(outcome)) => {
                (Cursor::Done, Action::Finish(self.verdict_of(outcome)))
            },
            _ => (Cursor::Done, Action::Finish(self.verdict_of(Outcome::SpawnFailed))),
        }
    }

    /// How the operation ends after `outcome`.
    pub fn verdict(&self, outcome: Outcome) -> (v: Verdict)
        ensures
            v == self.verdict_of(outcome),
    {
        Verdict {
            code: outcome.exit_code(),
            remove_output: !outcome.clean(),
            remove_temporary: self.temporary.is_some(),
            failure: outcome.failure(),
        }
    }

    /// What trying the candidate with index `i` starts with.
    fn attempt(&self, i: usize) -> (r: (Cursor, Action))
        ensures
            r == self.attempt_of(i as int),
    {
        if i >= self.candidates.len() {
            (Cursor::Done, Action::Finish(self.verdict(Outcome::SpawnFailed)))
        } else if self.candidates[i].probe.is_some() {
            (Cursor::Probing(i), Action::Probe(i))
        } else {
            (Cursor::Running(i), Action::Run(i))
        }
    }

    /// The first step of the plan.
    pub fn begin(&self) -> (r: (Cursor, Action))
        ensures
            r == self.attempt_of(0),
    {
        self.attempt(0)
    }

    /// The step that follows `event` at `cursor`.
    pub fn step(&self, cursor: Cursor, event: Event) -> (r: (Cursor, Action))
        ensures
            r == self.step_of(cursor, event),
    {
        match (cursor, event) {
            (Cursor::Probing(i), Event::Probed(usable)) => {
                if i >= self.candidates.len() {
                    (Cursor::Done, Action::Finish(self.verdict(Outcome::SpawnFailed)))
                } else if usable {
                    (Cursor::Running(i), Action::Run(i))
                } else {
                    self.attempt(i + 1)
                }
            },
            (Cursor::Running(_), Event::Finished(outcome)) => {
                if outcome.clean() && self.follow_up.is_some() {
                    (Cursor::FollowingUp, Action::FollowUp)
                } else {
                    (Cursor::Done, Action::Finish(self.verdict(outcome)))
                }
            },
            (Cursor::FollowingUp, Event::Finished(outcome)) => {
                (Cursor::Done, Action::Finish(self.verdict(outcome)))
            },
            _ => (Cursor::Done, Action::Finish(self.verdict(Outcome::SpawnFailed))),
        }
    }
}

} // verus!
