//! Sessions: one operation from the request to the exit status.
//!
//! A session decides; the caller acts. The caller carries out each step it
//! is given, reports what it found or what happened, and is given the next
//! step, until the step is to finish. Everything that can be wrong with a
//! request is found before the first step that writes, removes or runs
//! anything.

use vstd::prelude::*;

use crate::archive_format::ArchiveFormat;
use crate::command::texts;
use crate::compression::{
    archive_format_verdict, archive_plan, archive_problem, archive_target, archive_target_of,
    handle_compression, needs_temporary, resolve_archive, temporary_beside, temporary_path,
};
use crate::decompression::{
    decompressed_file, decompressed_path, extract_format_verdict, extract_plan, extract_problem,
    extract_target, extract_target_of, handle_decompression, resolve_extract,
};
use crate::error::{Error, PathProblem, UsageProblem};
use crate::facts::{
    check_directory_target, check_file_target, directory_target_verdict, file_target_verdict,
    InputEntry, PathStatus,
};
use crate::path::{opt_text, parent, path_parent};
use crate::plan::{Action, Cursor, Event, Outcome, Plan, PlanView, Verdict, FAILURE_CODE};
use crate::request::Request;
use crate::session_laws::steps_keep_sessions_consistent;
use crate::tool::ExecutablePaths;

verus! {

/// Where a session stands, named by what it has achieved; each stage but
/// the last two waits for one kind of report.
#[derive(Debug, Clone, Copy, PartialEq, Eq, Structural, Hash)]
pub enum Stage {
    /// Nothing is known yet; the resolved inputs are awaited.
    Idle,
    /// The inputs are in order, the format is resolved and the options are
    /// compatible with it; the inspection of the output place is awaited.
    OptionsCompatibilityChecked,
    /// The output place is in order; the inspection of a second place is
    /// awaited: the temporary file of an archive, the file that a
    /// single-file archive is decompressed to.
    OutputInspected,
    /// The caller makes the output place ready; its word is awaited.
    Preparing,
    /// The output place is ready; the password is awaited.
    OutputPrepared,
    /// The plan is made and a probe runs; its result is awaited.
    Selecting,
    /// The pipeline is selected and runs, or the follow-up command does;
    /// its end is awaited.
    Executing,
    Succeeded,
    Failed,
}

/// What the caller reports to a session.
#[derive(Debug)]
pub enum Report {
    /// The inputs with their canonical paths, and the working directory.
    Inputs(Vec<InputEntry>, String),
    /// An input does not exist.
    InputMissing,
    /// What stands at the place that was to be inspected, and the absolute
    /// path of that place.
    Inspected(String, PathStatus),
    /// Whether the output place could be made ready.
    Prepared(bool),
    /// The password that was read, or `None` if none could be read.
    Password(Option<String>),
    /// Whether the probe exited cleanly.
    Probed(bool),
    /// How the pipeline or the follow-up command ended.
    Finished(Outcome),
}

/// What a session asks of the caller.
#[derive(Debug)]
pub enum Step {
    /// Resolve the inputs of the request and report them.
    ResolveInputs,
    /// Report what stands at this path, without changing anything.
    Inspect(String),
    /// Remove these files, then create this directory with its parents
    /// unless it exists, and report whether all of it succeeded.
    Prepare { remove: Vec<String>, create: Option<String> },
    /// Read the password from the user and report it.
    AskPassword,
    /// Run the probe of the candidate with this index in the plan, with
    /// what it prints discarded, and report whether it exited with code 0.
    /// A probe that cannot be started counts as failed.
    Probe(usize),
    /// Run the pipeline of the candidate with this index in the plan: in
    /// the plan's directory, with the standard output of the last process
    /// connected to the plan's file for it, if there is one. Wait for the
    /// last process and report how it ended.
    Run(usize),
    /// Run the follow-up command of the plan in the same way.
    FollowUp,
    /// Clean up as the verdict says, without minding what cannot be
    /// removed, and exit with the verdict's code.
    Finish(Verdict),
}

/// A step as texts.
pub enum StepView {
    ResolveInputs,
    Inspect(Seq<char>),
    Prepare { remove: Seq<Seq<char>>, create: Option<Seq<char>> },
    AskPassword,
    Probe(usize),
    Run(usize),
    FollowUp,
    Finish(Verdict),
}

impl View for Step {
    type V = StepView;

    open spec fn view(&self) -> StepView {
        match self {
            Step::ResolveInputs => StepView::ResolveInputs,
            Step::Inspect(path) => StepView::Inspect(path@),
            Step::Prepare { remove, create } => StepView::Prepare {
                remove: texts(remove@),
                create: opt_text(*create),
            },
            Step::AskPassword => StepView::AskPassword,
            Step::Probe(i) => StepView::Probe(*i),
            Step::Run(i) => StepView::Run(*i),
            Step::FollowUp => StepView::FollowUp,
            Step::Finish(verdict) => StepView::Finish(*verdict),
        }
    }
}

/// How an operation ends that is turned down before anything was written:
/// with the failure code, and nothing to remove.
pub open spec fn refusal(e: Error) -> Verdict {
    Verdict { code: FAILURE_CODE, remove_output: false, remove_temporary: false, failure: Some(e) }
}

/// The step that carries out an action of the plan.
pub open spec fn step_for(action: Action) -> StepView {
    match action {
        Action::Probe(i) => StepView::Probe(i),
        Action::Run(i) => StepView::Run(i),
        Action::FollowUp => StepView::FollowUp,
        Action::Finish(verdict) => StepView::Finish(verdict),
    }
}

/// The stage in which a session awaits the report on an action of the plan.
pub open spec fn stage_for(action: Action) -> Stage {
    match action {
        Action::Probe(_) => Stage::Selecting,
        Action::Run(_) | Action::FollowUp => Stage::Executing,
        Action::Finish(verdict) => if verdict.failure is None {
            Stage::Succeeded
        } else {
            Stage::Failed
        },
    }
}

/// One operation in progress.
#[derive(Debug)]
pub struct Session {
    pub paths: ExecutablePaths,
    pub request: Request,
    pub stage: Stage,
    /// The resolved inputs.
    pub inputs: Vec<InputEntry>,
    /// The format of the archive to write or to read.
    pub format: Option<ArchiveFormat>,
    /// The absolute path of the archive to write, or of the directory to
    /// unpack into.
    pub output: String,
    /// Whether a file stands where the archive is to be written.
    pub replaces: bool,
    /// Whether the directory to unpack into has been created.
    pub created: bool,
    /// The password in use; empty for none.
    pub password: String,
    pub plan: Option<Plan>,
    pub cursor: Cursor,
}

impl Session {
    /// The password that the request holds.
    pub open spec fn requested_password(self) -> Option<String> {
        match self.request {
            Request::Archive(request) => request.password,
            Request::Extract(request) => request.password,
        }
    }

    /// The session ends in failure with the error `e`, and nothing else
    /// about it changes.
    pub open spec fn refused(self, post: Session, step: StepView, e: Error) -> bool {
        post == (Session { stage: Stage::Failed, ..self }) && step == StepView::Finish(refusal(e))
    }

    /// What the resolved inputs lead to: the format and the place to
    /// inspect, or the first error. The values of an archive request are
    /// judged first. An archive goes where the request says or beside the
    /// working directory, and its format is that of this place. An archive
    /// to unpack is the one input, and its format is that of its path; a
    /// directory cannot be a single-file archive.
    pub open spec fn inputs_verdict(self, inputs: Seq<InputEntry>, cwd: Seq<char>) -> Result<
        (ArchiveFormat, Seq<char>),
        Error,
    > {
        match self.request {
            Request::Archive(request) => if request.problem() is Some {
                Err(request.problem()->0)
            } else {
                match archive_target_of(&request, inputs, cwd) {
                    Err(e) => Err(e),
                    Ok(target) => match archive_format_verdict(&request, inputs, target) {
                        Err(e) => Err(e),
                        Ok(format) => Ok((format, target)),
                    },
                }
            },
            Request::Extract(request) => if inputs.len() != 1 {
                Err(Error::PathError(PathProblem::NoInput))
            } else {
                match extract_format_verdict(&request, &inputs[0]) {
                    Err(e) => Err(e),
                    Ok(format) => Ok((format, extract_target_of(&request, cwd))),
                }
            },
        }
    }

    /// After the inputs: the request is turned down, or the output place is
    /// to be inspected.
    pub open spec fn after_inputs(
        self,
        inputs: Vec<InputEntry>,
        cwd: Seq<char>,
        post: Session,
        step: StepView,
    ) -> bool {
        match self.inputs_verdict(inputs@, cwd) {
            Err(e) => self.refused(post, step, e),
            Ok((format, target)) => post == (Session {
                stage: Stage::OptionsCompatibilityChecked,
                inputs,
                format: Some(format),
                ..self
            }) && step == StepView::Inspect(target),
        }
    }

    /// The plan for the session with `password`, or why there is none.
    pub open spec fn plan_view(self, password: Seq<char>) -> Result<PlanView, Error> {
        match self.format {
            None => Err(Error::UnknownFormat),
            Some(format) => match self.request {
                Request::Archive(request) => archive_plan(
                    &self.paths,
                    &request,
                    format,
                    self.inputs@,
                    self.output@,
                    password,
                ),
                Request::Extract(request) => if self.inputs@.len() >= 1 {
                    extract_plan(
                        &self.paths,
                        &request,
                        format,
                        &self.inputs@[0],
                        self.output@,
                        password,
                    )
                } else {
                    Err(Error::PathError(PathProblem::NoInput))
                },
            },
        }
    }

    /// The plan is made with `password` and its first step is taken, or the
    /// request is turned down for what keeps the plan from being made.
    pub open spec fn planned(self, password: Seq<char>, post: Session, step: StepView) -> bool {
        match self.plan_view(password) {
            Err(e) => self.refused(post, step, e),
            Ok(view) => {
                &&& post.plan is Some
                &&& post.plan->0@ == view
                &&& post.plan->0.well_formed()
                &&& post.password@ == password
                &&& post.cursor == post.plan->0.attempt_of(0).0
                &&& post.stage == stage_for(post.plan->0.attempt_of(0).1)
                &&& step == step_for(post.plan->0.attempt_of(0).1)
                &&& post == (Session {
                    stage: post.stage,
                    password: post.password,
                    plan: post.plan,
                    cursor: post.cursor,
                    ..self
                })
            },
        }
    }

    /// Once the output place is in order: the password is asked for if the
    /// request holds an empty one, else the plan is made with the password
    /// of the request, or with none.
    pub open spec fn proceeded(self, post: Session, step: StepView) -> bool {
        match self.requested_password() {
            Some(password) => if password@.len() == 0 {
                post == (Session { stage: Stage::OutputPrepared, ..self }) && step
                    == StepView::AskPassword
            } else {
                self.planned(password@, post, step)
            },
            None => self.planned(Seq::empty(), post, step),
        }
    }

    /// After the inspection of the output place.
    ///
    /// An archive must not go where a directory stands. Its temporary file,
    /// if it needs one, is inspected next; else the place is made ready: the
    /// file that stands there is removed and the parent directory is
    /// created.
    ///
    /// The content of an archive must go into a directory. A missing one is
    /// created, once, and inspected again. Then the file that a single-file
    /// archive is decompressed to is inspected, and for the other formats
    /// the session proceeds.
    pub open spec fn after_inspection(
        self,
        path: String,
        status: PathStatus,
        post: Session,
        step: StepView,
    ) -> bool {
        match self.request {
            Request::Archive(request) => match file_target_verdict(status) {
                Err(e) => self.refused(post, step, e),
                Ok(replaces) => if self.format is Some && needs_temporary(
                    &request,
                    self.format->0,
                ) {
                    match temporary_path(path@) {
                        None => self.refused(post, step, Error::PathError(PathProblem::Unnamed)),
                        Some(temporary) => post == (Session {
                            stage: Stage::OutputInspected,
                            output: path,
                            replaces,
                            ..self
                        }) && step == StepView::Inspect(temporary),
                    }
                } else {
                    post == (Session { stage: Stage::Preparing, output: path, replaces, ..self })
                        && step == StepView::Prepare {
                        remove: if replaces {
                            seq![path@]
                        } else {
                            Seq::empty()
                        },
                        create: path_parent(path@),
                    }
                },
            },
            Request::Extract(request) => match directory_target_verdict(status) {
                Err(e) => self.refused(post, step, e),
                Ok(missing) => if missing {
                    if self.created {
                        self.refused(post, step, Error::PathError(PathProblem::NotPrepared))
                    } else {
                        post == (Session {
                            stage: Stage::Preparing,
                            output: path,
                            created: true,
                            ..self
                        }) && step == StepView::Prepare {
                            remove: Seq::empty(),
                            create: Some(path@),
                        }
                    }
                } else if self.format is Some && self.format->0.is_single_stream() {
                    if self.inputs@.len() >= 1 && decompressed_path(self.inputs@[0].path@, path@)
                        is Some {
                        post == (Session { stage: Stage::OutputInspected, output: path, ..self })
                            && step == StepView::Inspect(
                            decompressed_path(self.inputs@[0].path@, path@)->0,
                        )
                    } else {
                        self.refused(post, step, Error::PathError(PathProblem::Unnamed))
                    }
                } else {
                    (Session { output: path, ..self }).proceeded(post, step)
                },
            },
        }
    }

    /// After the inspection of the second place: no directory may stand
    /// there. For an archive the output place is then made ready, the file
    /// that stands at the temporary place being removed too; for an
    /// extraction the session proceeds.
    pub open spec fn after_second_inspection(
        self,
        status: PathStatus,
        post: Session,
        step: StepView,
    ) -> bool {
        match file_target_verdict(status) {
            Err(e) => self.refused(post, step, e),
            Ok(occupied) => match self.request {
                Request::Archive(_) => match temporary_path(self.output@) {
                    None => self.refused(post, step, Error::PathError(PathProblem::Unnamed)),
                    Some(temporary) => post == (Session { stage: Stage::Preparing, ..self })
                        && step == StepView::Prepare {
                        remove: (if self.replaces {
                            seq![self.output@]
                        } else {
                            Seq::empty()
                        }) + (if occupied {
                            seq![temporary]
                        } else {
                            Seq::empty()
                        }),
                        create: path_parent(self.output@),
                    },
                },
                Request::Extract(_) => self.proceeded(post, step),
            },
        }
    }

    /// After the preparation: a failure ends the session. Otherwise an
    /// archive session proceeds, and an extract session inspects the
    /// directory that was created.
    pub open spec fn after_preparation(self, ready: bool, post: Session, step: StepView) -> bool {
        if !ready {
            self.refused(post, step, Error::PathError(PathProblem::NotPrepared))
        } else {
            match self.request {
                Request::Archive(_) => self.proceeded(post, step),
                Request::Extract(_) => post == (Session { stage: Stage::OptionsCompatibilityChecked, ..self })
                    && step == StepView::Inspect(self.output@),
            }
        }
    }

    /// After the password: without one the session ends, with one the plan
    /// is made.
    pub open spec fn after_password(
        self,
        password: Option<String>,
        post: Session,
        step: StepView,
    ) -> bool {
        match password {
            None => self.refused(post, step, Error::Usage(UsageProblem::PasswordUnavailable)),
            Some(password) => self.planned(password@, post, step),
        }
    }

    /// How a session ends on a report that does not fit its stage: as if a
    /// tool could not be started. Where a pipeline may have run, the output
    /// is removed.
    pub open spec fn abort_verdict(self) -> Verdict {
        if (self.stage == Stage::Selecting || self.stage == Stage::Executing) && self.plan
            is Some {
            self.plan->0.verdict_of(Outcome::SpawnFailed)
        } else {
            refusal(Error::ToolSpawnFailure)
        }
    }

    /// The session ends on a report that does not fit its stage.
    pub open spec fn aborted(self, post: Session, step: StepView) -> bool {
        post == (Session { stage: Stage::Failed, ..self }) && step == StepView::Finish(
            self.abort_verdict(),
        )
    }

    /// After the end of a probe, a pipeline or the follow-up command: the
    /// plan says what comes next.
    pub open spec fn after_event(self, event: Event, post: Session, step: StepView) -> bool {
        match self.plan {
            None => self.aborted(post, step),
            Some(plan) => {
                let next = plan.step_of(self.cursor, event);
                post == (Session { stage: stage_for(next.1), cursor: next.0, ..self }) && step
                    == step_for(next.1)
            },
        }
    }

    /// Whether the session holds what its stage promises: while a probe or
    /// a pipeline runs there is a well-formed plan, it is the plan for the
    /// request, a request that nothing stands against, and the cursor
    /// points into it.
    pub open spec fn consistent(self) -> bool {
        (self.stage == Stage::Selecting || self.stage == Stage::Executing) ==> {
            &&& self.plan is Some
            &&& self.plan->0.well_formed()
            &&& self.format is Some
            &&& self.valid_request()
            &&& self.plan_view(self.password@) == Ok::<PlanView, Error>(self.plan->0@)
            &&& match self.cursor {
                Cursor::Probing(i) => self.stage == Stage::Selecting && i
                    < self.plan->0.candidates@.len() - 1,
                Cursor::Running(i) => self.stage == Stage::Executing && i
                    < self.plan->0.candidates@.len(),
                Cursor::FollowingUp => self.stage == Stage::Executing && self.plan->0.follow_up
                    is Some,
                Cursor::Done => false,
            }
        }
    }

    /// Whether nothing stands against the request with the format and the
    /// inputs of the session.
    pub open spec fn valid_request(self) -> bool {
        self.format is Some && match self.request {
            Request::Archive(request) => archive_problem(&request, self.format->0, self.inputs@)
                is None,
            Request::Extract(request) => self.inputs@.len() >= 1 && extract_problem(
                &request,
                self.format->0,
                &self.inputs@[0],
            ) is None,
        }
    }

    /// What a report leads to: the session after it, and the step to take.
    pub open spec fn leads_to(self, report: Report, post: Session, step: StepView) -> bool {
        match (self.stage, report) {
            (Stage::Idle, Report::Inputs(inputs, cwd)) => self.after_inputs(
                inputs,
                cwd@,
                post,
                step,
            ),
            (Stage::Idle, Report::InputMissing) => self.refused(
                post,
                step,
                Error::PathError(PathProblem::InputMissing),
            ),
            (Stage::OptionsCompatibilityChecked, Report::Inspected(path, status)) => self.after_inspection(
                path,
                status,
                post,
                step,
            ),
            (Stage::OutputInspected, Report::Inspected(_, status)) => self.after_second_inspection(
                status,
                post,
                step,
            ),
            (Stage::Preparing, Report::Prepared(ready)) => self.after_preparation(
                ready,
                post,
                step,
            ),
            (Stage::OutputPrepared, Report::Password(password)) => self.after_password(
                password,
                post,
                step,
            ),
            (Stage::Selecting, Report::Probed(usable)) => self.after_event(
                Event::Probed(usable),
                post,
                step,
            ),
            (Stage::Executing, Report::Finished(outcome)) => self.after_event(
                Event::Finished(outcome),
                post,
                step,
            ),
            _ => self.aborted(post, step),
        }
    }

    /// A session for `request`, and its first step: to resolve the inputs.
    pub fn new(request: Request, paths: ExecutablePaths) -> (r: (Session, Step))
        ensures
            r.0.request == request,
            r.0.paths == paths,
            r.0.stage == Stage::Idle,
            r.0.inputs@.len() == 0,
            r.0.format is None,
            r.0.output@.len() == 0,
            !r.0.replaces,
            !r.0.created,
            r.0.password@.len() == 0,
            r.0.plan is None,
            r.0.cursor == Cursor::Done,
            r.0.consistent(),
            r.1@ == StepView::ResolveInputs,
    {
        (
            Session {
                paths,
                request,
                stage: Stage::Idle,
                inputs: Vec::new(),
                format: None,
                output: String::new(),
                replaces: false,
                created: false,
                password: String::new(),
                plan: None,
                cursor: Cursor::Done,
            },
            Step::ResolveInputs,
        )
    }

    /// Ends the session in failure with the error `e`.
    fn refuse(&mut self, e: Error) -> (step: Step)
        ensures
            old(self).refused(*final(self), step@, e),
    {
        self.stage = Stage::Failed;
        Step::Finish(
            Verdict {
                code: FAILURE_CODE,
                remove_output: false,
                remove_temporary: false,
                failure: Some(e),
            },
        )
    }

    /// Ends the session on a report that does not fit its stage.
    fn abort(&mut self) -> (step: Step)
        ensures
            old(self).aborted(*final(self), step@),
    {
        let running = matches!(self.stage, Stage::Selecting | Stage::Executing);
        let verdict = match &self.plan {
            Some(plan) if running => plan.verdict(Outcome::SpawnFailed),
            _ => Verdict {
                code: FAILURE_CODE,
                remove_output: false,
                remove_temporary: false,
                failure: Some(Error::ToolSpawnFailure),
            },
        };
        self.stage = Stage::Failed;
        Step::Finish(verdict)
    }

    /// Takes the resolved inputs.
    fn take_inputs(&mut self, inputs: Vec<InputEntry>, cwd: String) -> (step: Step)
        ensures
            old(self).after_inputs(inputs, cwd@, *final(self), step@),
    {
        let verdict: Result<(ArchiveFormat, String), Error> = match &self.request {
            Request::Archive(request) => match request.check() {
                Err(e) => Err(e),
                Ok(_) => match archive_target(request, &inputs, cwd.as_str()) {
                    Err(e) => Err(e),
                    Ok(target) => match resolve_archive(request, &inputs, target.as_str()) {
                        Err(e) => Err(e),
                        Ok(format) => Ok((format, target)),
                    },
                },
            },
            Request::Extract(request) => if inputs.len() != 1 {
                Err(Error::PathError(PathProblem::NoInput))
            } else {
                match resolve_extract(request, &inputs[0]) {
                    Err(e) => Err(e),
                    Ok(format) => Ok((format, extract_target(request, cwd.as_str()))),
                }
            },
        };
        match verdict {
            Err(e) => self.refuse(e),
            Ok((format, target)) => {
                self.stage = Stage::OptionsCompatibilityChecked;
                self.inputs = inputs;
                self.format = Some(format);
                Step::Inspect(target)
            },
        }
    }

    /// Makes the plan with `password` and takes its first step.
    fn make_plan(&mut self, password: String) -> (step: Step)
        ensures
            old(self).planned(password@, *final(self), step@),
    {
        let format = match self.format {
            Some(format) => format,
            None => {
                return self.refuse(Error::UnknownFormat);
            },
        };
        let made = match &self.request {
            Request::Archive(request) => handle_compression(
                &self.paths,
                request,
                format,
                &self.inputs,
                self.output.as_str(),
                password.as_str(),
            ),
            Request::Extract(request) => if self.inputs.len() >= 1 {
                handle_decompression(
                    &self.paths,
                    request,
                    format,
                    &self.inputs[0],
                    self.output.as_str(),
                    password.as_str(),
                )
            } else {
                Err(Error::PathError(PathProblem::NoInput))
            },
        };
        match made {
            Err(e) => self.refuse(e),
            Ok(plan) => {
                let (cursor, action) = plan.begin();
                self.plan = Some(plan);
                self.password = password;
                self.cursor = cursor;
                self.follow(action)
            },
        }
    }

    /// Sets the stage that awaits the report on `action`, and gives the
    /// step that carries it out.
    fn follow(&mut self, action: Action) -> (step: Step)
        ensures
            *final(self) == (Session { stage: stage_for(action), ..*old(self) }),
            step@ == step_for(action),
    {
        match action {
            Action::Probe(i) => {
                self.stage = Stage::Selecting;
                Step::Probe(i)
            },
            Action::Run(i) => {
                self.stage = Stage::Executing;
                Step::Run(i)
            },
            Action::FollowUp => {
                self.stage = Stage::Executing;
                Step::FollowUp
            },
            Action::Finish(verdict) => {
                self.stage = if verdict.failure.is_none() {
                    Stage::Succeeded
                } else {
                    Stage::Failed
                };
                Step::Finish(verdict)
            },
        }
    }

    /// Asks for the password or makes the plan.
    fn proceed(&mut self) -> (step: Step)
        ensures
            old(self).proceeded(*final(self), step@),
    {
        let requested: &Option<String> = match &self.request {
            Request::Archive(request) => &request.password,
            Request::Extract(request) => &request.password,
        };
        let password: Option<String> = match requested {
            Some(password) => if password.as_str().is_empty() {
                None
            } else {
                Some(password.clone())
            },
            None => Some(String::new()),
        };
        match password {
            None => {
                self.stage = Stage::OutputPrepared;
                Step::AskPassword
            },
            Some(password) => self.make_plan(password),
        }
    }

    /// Takes the inspection of the output place.
    fn take_inspection(&mut self, path: String, status: PathStatus) -> (step: Step)
        ensures
            old(self).after_inspection(path, status, *final(self), step@),
    {
        let archiving = matches!(self.request, Request::Archive(_));
        if archiving {
            let replaces = match check_file_target(status) {
                Err(e) => {
                    return self.refuse(e);
                },
                Ok(replaces) => replaces,
            };
            let two_phases = match &self.request {
                Request::Archive(request) => matches!(self.format, Some(ArchiveFormat::Zip))
                    && request.split.is_some(),
                Request::Extract(_) => false,
            };
            if two_phases {
                match temporary_beside(path.as_str()) {
                    None => self.refuse(Error::PathError(PathProblem::Unnamed)),
                    Some(temporary) => {
                        self.stage = Stage::OutputInspected;
                        self.output = path;
                        self.replaces = replaces;
                        Step::Inspect(temporary)
                    },
                }
            } else {
                let mut remove: Vec<String> = Vec::new();
                if replaces {
                    remove.push(path.clone());
                }
                let create = parent(path.as_str());
                assert(texts(remove@) =~= if replaces {
                    seq![path@]
                } else {
                    Seq::empty()
                });
                self.stage = Stage::Preparing;
                self.output = path;
                self.replaces = replaces;
                Step::Prepare { remove, create }
            }
        } else {
            let missing = match check_directory_target(status) {
                Err(e) => {
                    return self.refuse(e);
                },
                Ok(missing) => missing,
            };
            if missing {
                if self.created {
                    self.refuse(Error::PathError(PathProblem::NotPrepared))
                } else {
                    let remove: Vec<String> = Vec::new();
                    let create = Some(path.clone());
                    assert(texts(remove@) =~= Seq::<Seq<char>>::empty());
                    self.stage = Stage::Preparing;
                    self.output = path;
                    self.created = true;
                    Step::Prepare { remove, create }
                }
            } else {
                let single = match self.format {
                    Some(format) => format.single_stream(),
                    None => false,
                };
                if single {
                    let file = if self.inputs.len() >= 1 {
                        decompressed_file(self.inputs[0].path.as_str(), path.as_str())
                    } else {
                        None
                    };
                    match file {
                        None => self.refuse(Error::PathError(PathProblem::Unnamed)),
                        Some(file) => {
                            self.stage = Stage::OutputInspected;
                            self.output = path;
                            Step::Inspect(file)
                        },
                    }
                } else {
                    self.output = path;
                    self.proceed()
                }
            }
        }
    }

    /// Takes the inspection of the second place.
    fn take_second_inspection(&mut self, status: PathStatus) -> (step: Step)
        ensures
            old(self).after_second_inspection(status, *final(self), step@),
    {
        let occupied = match check_file_target(status) {
            Err(e) => {
                return self.refuse(e);
            },
            Ok(occupied) => occupied,
        };
        if matches!(self.request, Request::Archive(_)) {
            match temporary_beside(self.output.as_str()) {
                None => self.refuse(Error::PathError(PathProblem::Unnamed)),
                Some(temporary) => {
                    let mut remove: Vec<String> = Vec::new();
                    if self.replaces {
                        remove.push(self.output.clone());
                    }
                    if occupied {
                        remove.push(temporary);
                    }
                    let create = parent(self.output.as_str());
                    assert(texts(remove@) =~= (if self.replaces {
                        seq![self.output@]
                    } else {
                        Seq::empty()
                    }) + (if occupied {
                        seq![temporary_path(self.output@)->0]
                    } else {
                        Seq::empty()
                    }));
                    self.stage = Stage::Preparing;
                    Step::Prepare { remove, create }
                },
            }
        } else {
            self.proceed()
        }
    }

    /// Takes the word on the preparation.
    fn take_preparation(&mut self, ready: bool) -> (step: Step)
        ensures
            old(self).after_preparation(ready, *final(self), step@),
    {
        if !ready {
            self.refuse(Error::PathError(PathProblem::NotPrepared))
        } else if matches!(self.request, Request::Archive(_)) {
            self.proceed()
        } else {
            self.stage = Stage::OptionsCompatibilityChecked;
            Step::Inspect(self.output.clone())
        }
    }

    /// Takes the end of a probe, a pipeline or the follow-up command.
    fn take_event(&mut self, event: Event) -> (step: Step)
        ensures
            old(self).after_event(event, *final(self), step@),
    {
        let next = match &self.plan {
            None => None,
            Some(plan) => Some(plan.step(self.cursor, event)),
        };
        match next {
            None => self.abort(),
            Some((cursor, action)) => {
                self.cursor = cursor;
                self.follow(action)
            },
        }
    }

    /// Takes a report and gives the next step. A consistent session stays
    /// consistent.
    pub fn step(&mut self, report: Report) -> (step: Step)
        ensures
            old(self).leads_to(report, *final(self), step@),
            old(self).consistent() ==> final(self).consistent(),
    {
        let ghost reported = report;
        let step = self.advance(report);
        proof {
            if old(self).consistent() {
                steps_keep_sessions_consistent(*old(self), reported, *self, step@);
            }
        }
        step
    }

    /// Takes a report and gives the next step.
    fn advance(&mut self, report: Report) -> (step: Step)
        ensures
            old(self).leads_to(report, *final(self), step@),
    {
        match (self.stage, report) {
            (Stage::Idle, Report::Inputs(inputs, cwd)) => self.take_inputs(inputs, cwd),
            (Stage::Idle, Report::InputMissing) => self.refuse(
                Error::PathError(PathProblem::InputMissing),
            ),
            (Stage::OptionsCompatibilityChecked, Report::Inspected(path, status)) => self.take_inspection(
                path,
                status,
            ),
            (Stage::OutputInspected, Report::Inspected(_, status)) => self.take_second_inspection(
                status,
            ),
            (Stage::Preparing, Report::Prepared(ready)) => self.take_preparation(ready),
            (Stage::OutputPrepared, Report::Password(password)) => match password {
                None => self.refuse(Error::Usage(UsageProblem::PasswordUnavailable)),
                Some(password) => self.make_plan(password),
            },
            (Stage::Selecting, Report::Probed(usable)) => self.take_event(Event::Probed(usable)),
            (Stage::Executing, Report::Finished(outcome)) => self.take_event(
                Event::Finished(outcome),
            ),
            _ => self.abort(),
        }
    }
}

} // verus!
