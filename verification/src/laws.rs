//! What holds of every request, plan and run.

use vstd::prelude::*;

use crate::archive_format::ArchiveFormat;
use crate::cli::CLIArgs;
use crate::compression::{
    archive_chain, archive_format_verdict, archive_plan, archive_problem, tar_members,
    tar_stream_argv,
};
use crate::decompression::{extract_chain, extract_plan, tar_extract_argv};
use crate::error::{Error, OptionName};
use crate::facts::InputEntry;
use crate::plan::{Action, Cursor, Event, Outcome, Plan, PlanView};
use crate::request::{
    parsed_byte_count, request_of, threads_of, ArchiveRequest, CompressionLevel, ExtractRequest,
    Request, MAX_SPLIT_TEXT, MIN_SPLIT_SIZE,
};
use crate::tool::{ExecutablePaths, Tool};

verus! {

/// A split size below the minimum is turned down as too small, whatever
/// else the request holds: no format is resolved for it and no plan is made.
pub proof fn small_split_is_rejected(
    paths: &ExecutablePaths,
    request: &ArchiveRequest,
    format: ArchiveFormat,
    inputs: Seq<InputEntry>,
    output: Seq<char>,
    password: Seq<char>,
)
    requires
        request.split is Some,
        request.split->0 < MIN_SPLIT_SIZE,
    ensures
        archive_format_verdict(request, inputs, output) == Err::<ArchiveFormat, Error>(
            Error::SplitSizeTooSmall,
        ),
        archive_plan(paths, request, format, inputs, output, password) is Err,
        archive_plan(paths, request, format, inputs, output, password)->Err_0
            == Error::SplitSizeTooSmall,
{
}

/// A command line whose split option reads as a size below the minimum
/// gives no request: it is turned down as too small. A text too long to be
/// read is no size at all.
pub proof fn small_split_gives_no_request(args: CLIArgs, cpus: usize)
    requires
        args.command is A,
        args.command->split is Some,
        args.command->split->0@.len() <= MAX_SPLIT_TEXT,
        parsed_byte_count(args.command->split->0@) is Some,
        parsed_byte_count(args.command->split->0@)->0 < MIN_SPLIT_SIZE,
    ensures
        request_of(args, cpus) is Err,
        request_of(args, cpus)->Err_0 == Error::SplitSizeTooSmall,
{
}

/// A password, a split size or a recovery record asked of a format that
/// does not support it leaves an archive request without a plan. Where
/// nothing else is wrong with the request, the error names the option.
pub proof fn unsupported_option_stops_archiving(
    paths: &ExecutablePaths,
    request: &ArchiveRequest,
    format: ArchiveFormat,
    inputs: Seq<InputEntry>,
    output: Seq<char>,
    password: Seq<char>,
)
    requires
        (request.password is Some && !format.supports_password()) || (request.split is Some
            && !format.supports_split()) || (request.recovery_record is Some
            && !format.supports_recovery_record()),
    ensures
        archive_problem(request, format, inputs) is Some,
        archive_plan(paths, request, format, inputs, output, password) is Err,
        request.problem() is None && inputs.len() > 0 ==> archive_plan(
            paths,
            request,
            format,
            inputs,
            output,
            password,
        )->Err_0 is IncompatibleOption,
{
}

/// A password given for an archive whose format does not support one
/// leaves an extract request without a plan. Where nothing else is wrong
/// with the request, the error names the option.
pub proof fn unsupported_password_stops_extracting(
    paths: &ExecutablePaths,
    request: &ExtractRequest,
    format: ArchiveFormat,
    input: &InputEntry,
    directory: Seq<char>,
    password: Seq<char>,
)
    requires
        request.password is Some,
        !format.supports_password(),
    ensures
        extract_plan(paths, request, format, input, directory, password) is Err,
        request.well_formed() ==> extract_plan(
            paths,
            request,
            format,
            input,
            directory,
            password,
        )->Err_0 == Error::IncompatibleOption(OptionName::Password),
{
}

/// Several inputs, or a directory, cannot go into a single-file format:
/// where nothing else is wrong with the request, it is turned down with
/// the error that names the format.
pub proof fn single_file_format_takes_one_file(
    paths: &ExecutablePaths,
    request: &ArchiveRequest,
    format: ArchiveFormat,
    inputs: Seq<InputEntry>,
    output: Seq<char>,
    password: Seq<char>,
)
    requires
        format.is_single_stream(),
        inputs.len() > 1 || (inputs.len() == 1 && inputs[0].is_dir),
        request.problem() is None,
        request.password is None,
        request.split is None,
        request.recovery_record is None,
    ensures
        archive_plan(paths, request, format, inputs, output, password) == Err::<
            PlanView,
            Error,
        >(Error::MultiInputSingleFileFormat(format)),
{
}

/// A directory cannot be unpacked as a single-file archive: where nothing
/// else is wrong with the request, it is turned down with the error that
/// names the format.
pub proof fn single_file_archive_is_no_directory(
    paths: &ExecutablePaths,
    request: &ExtractRequest,
    format: ArchiveFormat,
    input: &InputEntry,
    directory: Seq<char>,
    password: Seq<char>,
)
    requires
        format.is_single_stream(),
        input.is_dir,
    ensures
        extract_plan(paths, request, format, input, directory, password) is Err,
        request.well_formed() && request.password is None ==> extract_plan(
            paths,
            request,
            format,
            input,
            directory,
            password,
        )->Err_0 == Error::MultiInputSingleFileFormat(format),
{
}

/// After a pipeline or a follow-up command has ended in any way but a clean
/// exit, the operation ends at once: the output is removed, the temporary
/// file is removed if there is one, the exit status is not zero, and no
/// other candidate is tried.
pub proof fn failure_removes_output(plan: Plan, cursor: Cursor, outcome: Outcome)
    requires
        cursor is Running || cursor is FollowingUp,
        !outcome.is_clean(),
    ensures
        plan.step_of(cursor, Event::Finished(outcome)).0 == Cursor::Done,
        plan.step_of(cursor, Event::Finished(outcome)).1 is Finish,
        plan.step_of(cursor, Event::Finished(outcome)).1->Finish_0.remove_output,
        plan.step_of(cursor, Event::Finished(outcome)).1->Finish_0.remove_temporary == (
        plan.temporary is Some),
        plan.step_of(cursor, Event::Finished(outcome)).1->Finish_0.code != 0,
        plan.step_of(cursor, Event::Finished(outcome)).1->Finish_0.failure is Some,
{
}

/// The output is kept only after a clean exit, and the exit status is the
/// tool's own whenever it has one.
pub proof fn verdict_follows_outcome(plan: Plan, outcome: Outcome)
    ensures
        plan.verdict_of(outcome).remove_output <==> !outcome.is_clean(),
        plan.verdict_of(outcome).code == 0 <==> outcome.is_clean(),
        outcome matches Outcome::Exited(code) ==> plan.verdict_of(outcome).code == code,
        !(outcome is Exited) ==> plan.verdict_of(outcome).code == 1,
{
}

/// Once a pipeline runs, no probe and no other pipeline follows: the next
/// step is the follow-up command or the end.
pub proof fn no_retry_after_run(plan: Plan, i: usize, event: Event)
    ensures
        !(plan.step_of(Cursor::Running(i), event).1 is Probe),
        !(plan.step_of(Cursor::Running(i), event).1 is Run),
        !(plan.step_of(Cursor::FollowingUp, event).1 is Probe),
        !(plan.step_of(Cursor::FollowingUp, event).1 is Run),
        !(plan.step_of(Cursor::FollowingUp, event).1 is FollowUp),
        !(plan.step_of(Cursor::Done, event).1 is Probe),
        !(plan.step_of(Cursor::Done, event).1 is Run),
        !(plan.step_of(Cursor::Done, event).1 is FollowUp),
{
}

/// In a well-formed plan every step asks for something that exists: a
/// probe of a candidate that has one, the pipeline of a candidate of the
/// plan, or the follow-up command that the plan holds. Candidates are
/// probed in order, and a candidate is run only after its own probe has
/// succeeded or if it has none.
pub proof fn steps_stay_within_plan(plan: Plan, cursor: Cursor, event: Event)
    requires
        plan.well_formed(),
        cursor matches Cursor::Probing(i) ==> i < plan.candidates@.len() - 1,
        cursor matches Cursor::Running(i) ==> i < plan.candidates@.len(),
    ensures
        plan.step_of(cursor, event).1 matches Action::Probe(j) ==> (cursor matches Cursor::Probing(
            i,
        ) && j == i + 1 && event == Event::Probed(false) && j < plan.candidates@.len() - 1
            && plan.candidates@[j as int].probe is Some && plan.step_of(cursor, event).0
            == Cursor::Probing(j)),
        plan.step_of(cursor, event).1 matches Action::Run(j) ==> (cursor matches Cursor::Probing(
            i,
        ) && j < plan.candidates@.len() && plan.step_of(cursor, event).0 == Cursor::Running(j) && ((
        j == i && event == Event::Probed(true)) || (j == i + 1 && event == Event::Probed(false)
            && plan.candidates@[j as int].probe is None))),
        plan.step_of(cursor, event).1 is FollowUp ==> plan.follow_up is Some && plan.step_of(
            cursor,
            event,
        ).0 == Cursor::FollowingUp,
        plan.step_of(cursor, event).1 is Finish <==> plan.step_of(cursor, event).0 == Cursor::Done,
        plan.attempt_of(0).1 matches Action::Probe(j) ==> j == 0 && plan.candidates@.len() > 1,
        plan.attempt_of(0).1 matches Action::Run(j) ==> j == 0 && plan.candidates@.len() == 1,
        !(plan.attempt_of(0).1 is Finish),
        !(plan.attempt_of(0).1 is FollowUp),
{
    assert(plan.candidates@.len() == plan.candidates.len());
    match cursor {
        Cursor::Probing(i) => {
        },
        _ => {},
    }
}

/// Whether gzip is archived with the best compression: the one case in
/// which a parallel tool is tried although only one thread may be used.
pub open spec fn is_best_gzip(format: ArchiveFormat, level: CompressionLevel) -> bool {
    level == CompressionLevel::Best && (format == ArchiveFormat::Gzip || format
        == ArchiveFormat::TarGzip)
}

/// With one thread no parallel tool is among the tools to try for
/// archiving, except for gzip with the best compression.
pub proof fn one_thread_archives_without_parallel_tools(
    format: ArchiveFormat,
    level: CompressionLevel,
    i: int,
)
    requires
        !is_best_gzip(format, level),
        0 <= i < archive_chain(format, 1, level).len(),
    ensures
        !archive_chain(format, 1, level)[i].is_parallel(),
{
}

/// With one thread no parallel tool is among the tools to try for
/// extracting.
pub proof fn one_thread_extracts_without_parallel_tools(format: ArchiveFormat, i: int)
    requires
        0 <= i < extract_chain(format, 1).len(),
    ensures
        !extract_chain(format, 1)[i].is_parallel(),
{
}

/// Every chain ends with a canonical tool, the one that is used without
/// being probed: whatever the number of threads, the last tool to try is no
/// parallel one.
pub proof fn chains_end_with_canonical_tool(
    format: ArchiveFormat,
    threads: usize,
    level: CompressionLevel,
)
    ensures
        archive_chain(format, threads, level).len() >= 1,
        !archive_chain(format, threads, level).last().is_parallel(),
        extract_chain(format, threads).len() >= 1,
        !extract_chain(format, threads).last().is_parallel(),
{
}

/// In single-thread mode the request asks for one thread, whatever the
/// machine has.
pub proof fn single_thread_mode_means_one_thread(args: CLIArgs, cpus: usize)
    requires
        args.single_thread,
    ensures
        threads_of(args.single_thread, cpus) == 1,
        request_of(args, cpus) matches Ok((Request::Archive(request), _)) ==> request.threads == 1,
        request_of(args, cpus) matches Ok((Request::Extract(request), _)) ==> request.threads == 1,
{
}

/// With one thread no candidate of an archive plan is a parallel tool, so
/// none is probed or run, except for gzip with the best compression.
pub proof fn one_thread_plan_has_no_parallel_candidate(
    paths: &ExecutablePaths,
    request: &ArchiveRequest,
    format: ArchiveFormat,
    inputs: Seq<InputEntry>,
    output: Seq<char>,
    password: Seq<char>,
    i: int,
)
    requires
        request.threads == 1,
        !is_best_gzip(format, request.level),
        archive_plan(paths, request, format, inputs, output, password) is Ok,
        0 <= i < archive_plan(paths, request, format, inputs, output, password)->Ok_0.candidates.len(),
    ensures
        !archive_plan(
            paths,
            request,
            format,
            inputs,
            output,
            password,
        )->Ok_0.candidates[i].tool.is_parallel(),
{
}

/// With one thread no candidate of an extract plan is a parallel tool.
pub proof fn one_thread_extract_plan_has_no_parallel_candidate(
    paths: &ExecutablePaths,
    request: &ExtractRequest,
    format: ArchiveFormat,
    input: &InputEntry,
    directory: Seq<char>,
    password: Seq<char>,
    i: int,
)
    requires
        request.threads == 1,
        extract_plan(paths, request, format, input, directory, password) is Ok,
        0 <= i < extract_plan(paths, request, format, input, directory, password)->Ok_0.candidates.len(),
    ensures
        !extract_plan(
            paths,
            request,
            format,
            input,
            directory,
            password,
        )->Ok_0.candidates[i].tool.is_parallel(),
{
}

/// Archiving to a tar-wrapped format always runs two processes: tar, which
/// writes what it is told to store to its standard output, and the tool
/// that reads what tar writes. Every other format runs one.
pub proof fn tar_wrapped_archive_is_piped(
    paths: &ExecutablePaths,
    request: &ArchiveRequest,
    format: ArchiveFormat,
    inputs: Seq<InputEntry>,
    output: Seq<char>,
    password: Seq<char>,
    i: int,
)
    requires
        archive_plan(paths, request, format, inputs, output, password) is Ok,
        0 <= i < archive_plan(paths, request, format, inputs, output, password)->Ok_0.candidates.len(),
    ensures
        format.is_tar_wrapped() <==> archive_plan(
            paths,
            request,
            format,
            inputs,
            output,
            password,
        )->Ok_0.candidates[i].pipeline is Piped,
        format.is_tar_wrapped() ==> tar_members(inputs) is Some && archive_plan(
            paths,
            request,
            format,
            inputs,
            output,
            password,
        )->Ok_0.candidates[i].pipeline->Piped_0 == tar_stream_argv(
            paths.path_of(Tool::Tar),
            tar_members(inputs)->0,
        ),
{
}

/// Extracting a tar-wrapped archive always runs two processes, whichever
/// candidate is chosen: a tool that writes the decompressed archive to its
/// standard output, and tar, which unpacks what it reads from its standard
/// input into the directory. Every other format runs one process.
pub proof fn tar_wrapped_extract_is_piped(
    paths: &ExecutablePaths,
    request: &ExtractRequest,
    format: ArchiveFormat,
    input: &InputEntry,
    directory: Seq<char>,
    password: Seq<char>,
    i: int,
)
    requires
        extract_plan(paths, request, format, input, directory, password) is Ok,
        0 <= i < extract_plan(paths, request, format, input, directory, password)->Ok_0.candidates.len(),
    ensures
        format.is_tar_wrapped() <==> extract_plan(
            paths,
            request,
            format,
            input,
            directory,
            password,
        )->Ok_0.candidates[i].pipeline is Piped,
        format.is_tar_wrapped() ==> extract_plan(
            paths,
            request,
            format,
            input,
            directory,
            password,
        )->Ok_0.candidates[i].pipeline->Piped_1 == tar_extract_argv(
            paths.path_of(Tool::Tar),
            directory,
            "-"@,
            request.quiet,
        ),
        format.is_tar_wrapped() ==> extract_plan(
            paths,
            request,
            format,
            input,
            directory,
            password,
        )->Ok_0.candidates[i].tool != Tool::Tar,
{
}

/// An archive plan always names the output as the file to remove on
/// failure, and holds a follow-up command exactly when it holds a
/// temporary file.
pub proof fn archive_plan_guards_output(
    paths: &ExecutablePaths,
    request: &ArchiveRequest,
    format: ArchiveFormat,
    inputs: Seq<InputEntry>,
    output: Seq<char>,
    password: Seq<char>,
)
    requires
        archive_plan(paths, request, format, inputs, output, password) is Ok,
    ensures
        archive_plan(paths, request, format, inputs, output, password)->Ok_0.output == Some(output),
        archive_plan(paths, request, format, inputs, output, password)->Ok_0.follow_up is Some
            <==> archive_plan(paths, request, format, inputs, output, password)->Ok_0.temporary
            is Some,
{
}

} // verus!
