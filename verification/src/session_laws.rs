//! What holds of every session.

use vstd::prelude::*;

use crate::archive_format::format_of_path;
use crate::compression::archive_target_of;
use crate::error::{Error, OptionName};
use crate::facts::InputEntry;
use crate::laws::{
    is_best_gzip, one_thread_extract_plan_has_no_parallel_candidate,
    one_thread_plan_has_no_parallel_candidate, steps_stay_within_plan,
};
use crate::plan::{Cursor, Event, Outcome};
use crate::request::{Request, MIN_SPLIT_SIZE};
use crate::session::{refusal, Report, Session, Stage, StepView};

verus! {

/// Whether a step makes the caller run a process.
pub open spec fn runs_a_process(step: StepView) -> bool {
    step is Probe || step is Run || step is FollowUp
}

/// Whether a step makes the caller change anything on the file system or
/// run a process.
pub open spec fn has_effects(step: StepView) -> bool {
    runs_a_process(step) || step is Prepare || (step matches StepView::Finish(verdict)
        && (verdict.remove_output || verdict.remove_temporary))
}

/// Every step keeps a consistent session consistent, and leaves the request
/// and the tool paths as they are.
pub proof fn steps_keep_sessions_consistent(
    pre: Session,
    report: Report,
    post: Session,
    step: StepView,
)
    requires
        pre.consistent(),
        pre.leads_to(report, post, step),
    ensures
        post.consistent(),
        post.request == pre.request,
        post.paths == pre.paths,
{
    lemma_step(pre, report, post, step);
}

/// What every step of a consistent session brings: the session stays
/// consistent; a step that runs a process belongs to a plan made for a
/// request that nothing stands against, and leaves the session waiting for
/// its end; and success comes only from a clean exit.
proof fn lemma_step(pre: Session, report: Report, post: Session, step: StepView)
    requires
        pre.consistent(),
        pre.leads_to(report, post, step),
    ensures
        post.consistent(),
        post.request == pre.request,
        post.paths == pre.paths,
        runs_a_process(step) ==> post.valid_request() && post.plan is Some && (post.stage
            == Stage::Selecting || post.stage == Stage::Executing),
        post.stage == Stage::Succeeded ==> pre.stage == Stage::Executing && report
            == Report::Finished(Outcome::Exited(0)) && step == StepView::Finish(
            post.plan->0.verdict_of(Outcome::Exited(0)),
        ),
{
    match (pre.stage, report) {
        (Stage::Selecting, Report::Probed(usable)) => {
            lemma_event_keeps_consistent(pre, Event::Probed(usable), post, step);
        },
        (Stage::Executing, Report::Finished(outcome)) => {
            lemma_event_keeps_consistent(pre, Event::Finished(outcome), post, step);
        },
        (Stage::OptionsCompatibilityChecked, Report::Inspected(path, status)) => {
            lemma_plan_start(Session { output: path, ..pre }, post, step);
        },
        _ => {
            lemma_plan_start(pre, post, step);
        },
    }
}

/// While a plan is carried out, the steps stay within it.
proof fn lemma_event_keeps_consistent(
    pre: Session,
    event: Event,
    post: Session,
    step: StepView,
)
    requires
        pre.consistent(),
        pre.stage == Stage::Selecting || pre.stage == Stage::Executing,
        pre.after_event(event, post, step),
    ensures
        post.consistent(),
        post.request == pre.request,
        post.paths == pre.paths,
        runs_a_process(step) ==> post.valid_request(),
{
    let plan = pre.plan->0;
    steps_stay_within_plan(plan, pre.cursor, event);
}

/// A plan that was just made starts within itself.
proof fn lemma_plan_start(pre: Session, post: Session, step: StepView)
    ensures
        forall|password: Seq<char>| #[trigger]
            pre.planned(password, post, step) ==> post.consistent() && post.request
                == pre.request && post.paths == pre.paths && (runs_a_process(step)
                ==> post.valid_request()),
{
    assert forall|password: Seq<char>| #[trigger] pre.planned(password, post, step) implies
        post.consistent() && post.request == pre.request && post.paths == pre.paths && (
    runs_a_process(step) ==> post.valid_request()) by {
        if pre.plan_view(password) is Ok {
            let plan = post.plan->0;
            steps_stay_within_plan(
                plan,
                Cursor::Done,
                Event::Probed(true),
            );
        }
    }
}

/// No process is run for a request that something stands against: whenever
/// a step makes the caller run a process, the session holds a format, and
/// neither the values of the request, nor its options with that format,
/// nor the number and kind of its inputs are at fault.
pub proof fn no_process_without_valid_request(
    pre: Session,
    report: Report,
    post: Session,
    step: StepView,
)
    requires
        pre.consistent(),
        pre.leads_to(report, post, step),
        runs_a_process(step),
    ensures
        post.valid_request(),
        post.plan is Some,
{
    lemma_step(pre, report, post, step);
}

/// A session that turns its request down before a plan is made asks for
/// nothing to be removed.
pub proof fn refusal_has_no_effects(pre: Session, post: Session, step: StepView, e: Error)
    requires
        pre.refused(post, step, e),
    ensures
        !has_effects(step),
        post.stage == Stage::Failed,
        step == StepView::Finish(refusal(e)),
{
}

/// An archive request with a split size below the minimum ends at the first
/// report, as too small, whatever the inputs are and wherever the archive
/// is to go: nothing is inspected, removed, created or run for it.
pub proof fn small_split_ends_the_session(
    pre: Session,
    inputs: Vec<InputEntry>,
    cwd: String,
    post: Session,
    step: StepView,
)
    requires
        pre.stage == Stage::Idle,
        pre.request matches Request::Archive(request) && request.split is Some && request.split->0
            < MIN_SPLIT_SIZE,
        pre.leads_to(Report::Inputs(inputs, cwd), post, step),
    ensures
        post.stage == Stage::Failed,
        step == StepView::Finish(refusal(Error::SplitSizeTooSmall)),
        !has_effects(step),
{
}

/// A request that something stands against ends at the first report, with
/// the error in question: nothing is inspected, removed, created or run
/// for it.
pub proof fn invalid_request_ends_the_session(
    pre: Session,
    inputs: Vec<InputEntry>,
    cwd: String,
    post: Session,
    step: StepView,
)
    requires
        pre.stage == Stage::Idle,
        pre.leads_to(Report::Inputs(inputs, cwd), post, step),
        pre.inputs_verdict(inputs@, cwd@) is Err,
    ensures
        post.stage == Stage::Failed,
        step == StepView::Finish(refusal(pre.inputs_verdict(inputs@, cwd@)->Err_0)),
        !has_effects(step),
{
}

/// A password or a split size asked of an archive whose format supports
/// none ends the session at the first report: nothing is inspected,
/// removed, created or run for it.
pub proof fn unsupported_option_ends_the_session(
    pre: Session,
    inputs: Vec<InputEntry>,
    cwd: String,
    post: Session,
    step: StepView,
)
    requires
        pre.stage == Stage::Idle,
        pre.leads_to(Report::Inputs(inputs, cwd), post, step),
        pre.request is Archive,
        ({
            let request = pre.request->Archive_0;
            let target = archive_target_of(&request, inputs@, cwd@);
            let format = format_of_path(target->Ok_0);
            &&& target is Ok
            &&& format is Some
            &&& (request.password is Some && !format->0.supports_password()) || (request.split
                is Some && !format->0.supports_split())
        }),
    ensures
        post.stage == Stage::Failed,
        step is Finish,
        step->Finish_0.failure is Some,
        step->Finish_0.code == 1,
        !has_effects(step),
        pre.request->Archive_0.problem() is None && inputs@.len() > 0
            ==> step->Finish_0.failure->0 is IncompatibleOption,
{
}

/// A password given for an archive to unpack whose format supports none
/// ends the session at the first report.
pub proof fn unsupported_password_ends_the_session(
    pre: Session,
    inputs: Vec<InputEntry>,
    cwd: String,
    post: Session,
    step: StepView,
)
    requires
        pre.stage == Stage::Idle,
        pre.leads_to(Report::Inputs(inputs, cwd), post, step),
        inputs@.len() == 1,
        pre.request is Extract,
        pre.request->Extract_0.password is Some,
        format_of_path(inputs@[0].path@) is Some,
        !format_of_path(inputs@[0].path@)->0.supports_password(),
    ensures
        post.stage == Stage::Failed,
        step is Finish,
        step->Finish_0.failure is Some,
        !has_effects(step),
        pre.request->Extract_0.well_formed() ==> step == StepView::Finish(
            refusal(Error::IncompatibleOption(OptionName::Password)),
        ),
{
}

/// Before the output place has been inspected and found in order, no step
/// changes anything: the first two reports lead only to inspections or to
/// the end.
pub proof fn nothing_changes_before_validation(
    pre: Session,
    report: Report,
    post: Session,
    step: StepView,
)
    requires
        pre.stage == Stage::Idle,
        pre.plan is None,
        pre.leads_to(report, post, step),
    ensures
        !has_effects(step),
        step is Inspect || step is Finish,
        step is Inspect ==> post.stage == Stage::OptionsCompatibilityChecked && post.valid_request(),
{
}

/// When a pipeline or the follow-up command ends in any way but a clean
/// exit, the session ends in failure, asks for the output to be removed,
/// and exits with a status that is not zero.
pub proof fn failed_run_ends_the_session(
    pre: Session,
    outcome: Outcome,
    post: Session,
    step: StepView,
)
    requires
        pre.consistent(),
        pre.stage == Stage::Executing,
        !outcome.is_clean(),
        pre.leads_to(Report::Finished(outcome), post, step),
    ensures
        post.stage == Stage::Failed,
        step matches StepView::Finish(verdict) && verdict.remove_output && verdict.code != 0
            && verdict.failure is Some,
{
}

/// A session succeeds only through a clean exit of the last command, and
/// then exits with status zero and keeps the output.
pub proof fn success_means_clean_exit(pre: Session, report: Report, post: Session, step: StepView)
    requires
        pre.consistent(),
        pre.leads_to(report, post, step),
        post.stage == Stage::Succeeded,
    ensures
        pre.stage == Stage::Executing,
        report == Report::Finished(Outcome::Exited(0)),
        step matches StepView::Finish(verdict) && verdict.code == 0 && !verdict.remove_output
            && verdict.failure is None,
{
    lemma_step(pre, report, post, step);
}

/// The number of threads that the request of a session allows.
pub open spec fn threads_of_session(session: Session) -> usize {
    match session.request {
        Request::Archive(request) => request.threads,
        Request::Extract(request) => request.threads,
    }
}

/// Whether the session archives to gzip with the best compression.
pub open spec fn archives_best_gzip(session: Session) -> bool {
    session.request matches Request::Archive(request) && session.format is Some && is_best_gzip(
        session.format->0,
        request.level,
    )
}

/// With one thread no parallel tool is ever probed or run: every probe and
/// every pipeline that a session asks for belongs to a candidate whose tool
/// is no parallel one. The one exception is archiving to gzip with the
/// best compression.
pub proof fn one_thread_session_runs_no_parallel_tool(
    pre: Session,
    report: Report,
    post: Session,
    step: StepView,
)
    requires
        pre.consistent(),
        pre.leads_to(report, post, step),
        threads_of_session(pre) == 1,
        !archives_best_gzip(post),
    ensures
        step matches StepView::Probe(i) ==> post.plan is Some && i
            < post.plan->0.candidates@.len() && !post.plan->0.candidates@[i as int].tool.is_parallel(),
        step matches StepView::Run(i) ==> post.plan is Some && i < post.plan->0.candidates@.len()
            && !post.plan->0.candidates@[i as int].tool.is_parallel(),
{
    lemma_step(pre, report, post, step);
    if step is Probe || step is Run {
        let i = match step {
            StepView::Probe(i) => i,
            StepView::Run(i) => i,
            _ => 0,
        };
        let plan = post.plan->0;
        match post.request {
            Request::Archive(request) => {
                one_thread_plan_has_no_parallel_candidate(
                    &post.paths,
                    &request,
                    post.format->0,
                    post.inputs@,
                    post.output@,
                    post.password@,
                    i as int,
                );
            },
            Request::Extract(request) => {
                one_thread_extract_plan_has_no_parallel_candidate(
                    &post.paths,
                    &request,
                    post.format->0,
                    &post.inputs@[0],
                    post.output@,
                    post.password@,
                    i as int,
                );
            },
        }
    }
}

} // verus!
