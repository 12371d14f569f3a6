//! Extracting: which tools to try for a request, and with which arguments.

use vstd::prelude::*;

use crate::archive_format::{format_of_path, ArchiveFormat};
use crate::command::{flag_if, CandidateView, Command, Pipeline, PipelineView, ToolCandidate};
use crate::compression::{probe_argv, probe_command};
use crate::error::{Error, OptionName, PathProblem};
use crate::facts::InputEntry;
use crate::path::{file_name, join, path_file_name, path_join};
use crate::plan::{Plan, PlanView};
use crate::request::ExtractRequest;
use crate::text::{decimal, decimal_text, stem_of, stem_text};
use crate::tool::{ExecutablePaths, Tool};

verus! {

/// The tools to try for extracting an archive of `format`, most preferred
/// first. The last one is used without being probed. A parallel tool comes
/// first when more than one thread may be used. For a tar-wrapped format
/// the tools are those that decompress; tar itself is not among them, it
/// reads what they write.
pub open spec fn extract_chain(format: ArchiveFormat, threads: usize) -> Seq<Tool> {
    let many = threads > 1;
    match format {
        ArchiveFormat::TarZ | ArchiveFormat::TarGzip => if many {
            seq![Tool::Pigz, Tool::Gzip]
        } else {
            seq![Tool::Gzip]
        },
        ArchiveFormat::TarBzip2 => if many {
            seq![Tool::Lbzip2, Tool::Pbzip2, Tool::Bzip2]
        } else {
            seq![Tool::Bzip2]
        },
        ArchiveFormat::TarXz => if many {
            seq![Tool::Pxz, Tool::Xz]
        } else {
            seq![Tool::Xz]
        },
        ArchiveFormat::Tar => seq![Tool::Tar],
        ArchiveFormat::Z | ArchiveFormat::Gzip => if many {
            seq![Tool::Pigz, Tool::Gunzip, Tool::Gzip]
        } else {
            seq![Tool::Gunzip, Tool::Gzip]
        },
        ArchiveFormat::Bzip2 => if many {
            seq![Tool::Lbzip2, Tool::Pbzip2, Tool::Bunzip2, Tool::Bzip2]
        } else {
            seq![Tool::Bunzip2, Tool::Bzip2]
        },
        ArchiveFormat::TarLz | ArchiveFormat::Lz => if many {
            seq![Tool::Plzip, Tool::Lunzip, Tool::Lzip]
        } else {
            seq![Tool::Lunzip, Tool::Lzip]
        },
        ArchiveFormat::Xz => if many {
            seq![Tool::Pxz, Tool::Unxz, Tool::Xz]
        } else {
            seq![Tool::Unxz, Tool::Xz]
        },
        ArchiveFormat::TarLzma | ArchiveFormat::Lzma => if many {
            seq![Tool::Pxz, Tool::Unlzma, Tool::Lzma]
        } else {
            seq![Tool::Unlzma, Tool::Lzma]
        },
        ArchiveFormat::TarZstd | ArchiveFormat::Zstd => if many {
            seq![Tool::Pzstd, Tool::Unzstd, Tool::Zstd]
        } else {
            seq![Tool::Unzstd, Tool::Zstd]
        },
        ArchiveFormat::Tar7z | ArchiveFormat::P7z => seq![Tool::P7z],
        ArchiveFormat::Zip => seq![Tool::Unzip],
        ArchiveFormat::Rar => seq![Tool::Unrar, Tool::Rar],
    }
}

/// The tools to try for extracting an archive of `format`.
pub fn extract_tools(format: ArchiveFormat, threads: usize) -> (r: Vec<Tool>)
    ensures
        r@ == extract_chain(format, threads),
        r@.len() >= 1,
{
    let many = threads > 1;
    let mut r: Vec<Tool> = Vec::new();
    match format {
        ArchiveFormat::TarZ | ArchiveFormat::TarGzip => {
            if many {
                r.push(Tool::Pigz);
            }
            r.push(Tool::Gzip);
        },
        ArchiveFormat::TarBzip2 => {
            if many {
                r.push(Tool::Lbzip2);
                r.push(Tool::Pbzip2);
            }
            r.push(Tool::Bzip2);
        },
        ArchiveFormat::TarXz => {
            if many {
                r.push(Tool::Pxz);
            }
            r.push(Tool::Xz);
        },
        ArchiveFormat::Tar => {
            r.push(Tool::Tar);
        },
        ArchiveFormat::Z | ArchiveFormat::Gzip => {
            if many {
                r.push(Tool::Pigz);
            }
            r.push(Tool::Gunzip);
            r.push(Tool::Gzip);
        },
        ArchiveFormat::Bzip2 => {
            if many {
                r.push(Tool::Lbzip2);
                r.push(Tool::Pbzip2);
            }
            r.push(Tool::Bunzip2);
            r.push(Tool::Bzip2);
        },
        ArchiveFormat::TarLz | ArchiveFormat::Lz => {
            if many {
                r.push(Tool::Plzip);
            }
            r.push(Tool::Lunzip);
            r.push(Tool::Lzip);
        },
        ArchiveFormat::Xz => {
            if many {
                r.push(Tool::Pxz);
            }
            r.push(Tool::Unxz);
            r.push(Tool::Xz);
        },
        ArchiveFormat::TarLzma | ArchiveFormat::Lzma => {
            if many {
                r.push(Tool::Pxz);
            }
            r.push(Tool::Unlzma);
            r.push(Tool::Lzma);
        },
        ArchiveFormat::TarZstd | ArchiveFormat::Zstd => {
            if many {
                r.push(Tool::Pzstd);
            }
            r.push(Tool::Unzstd);
            r.push(Tool::Zstd);
        },
        ArchiveFormat::Tar7z | ArchiveFormat::P7z => {
            r.push(Tool::P7z);
        },
        ArchiveFormat::Zip => {
            r.push(Tool::Unzip);
        },
        ArchiveFormat::Rar => {
            r.push(Tool::Unrar);
            r.push(Tool::Rar);
        },
    }
    r
}

/// The command line by which a stream tool writes the decompressed `input`
/// to its standard output.
pub open spec fn decompressor_argv(
    program: Seq<char>,
    format: ArchiveFormat,
    tool: Tool,
    threads: Seq<char>,
    input: Seq<char>,
) -> Seq<Seq<char>> {
    match tool {
        Tool::Pigz | Tool::Pzstd => seq![program, "-d"@, "-c"@, "-p"@, threads, input],
        Tool::Lbzip2 | Tool::Plzip => seq![program, "-d"@, "-c"@, "-n"@, threads, input],
        Tool::Pbzip2 => seq![program, "-d"@, "-c"@, "-p"@ + threads, input],
        Tool::Pxz => if format == ArchiveFormat::Lzma || format == ArchiveFormat::TarLzma {
            seq![program, "-d"@, "-c"@, "-T"@, threads, "-F"@, "lzma"@, input]
        } else {
            seq![program, "-d"@, "-c"@, "-T"@, threads, input]
        },
        Tool::Gunzip
        | Tool::Bunzip2
        | Tool::Lunzip
        | Tool::Unxz
        | Tool::Unlzma
        | Tool::Unzstd => seq![program, "-c"@, input],
        _ => seq![program, "-d"@, "-c"@, input],
    }
}

/// The command line by which a stream tool decompresses to its standard
/// output.
fn decompressor_command(
    program: &str,
    format: ArchiveFormat,
    tool: Tool,
    threads: &str,
    input: &str,
) -> (c: Command)
    ensures
        c@ == decompressor_argv(program@, format, tool, threads@, input@),
{
    let mut c = Command::new(program);
    match tool {
        Tool::Pigz | Tool::Pzstd => {
            c.arg("-d");
            c.arg("-c");
            c.arg("-p");
            c.arg(threads);
            c.arg(input);
        },
        Tool::Lbzip2 | Tool::Plzip => {
            c.arg("-d");
            c.arg("-c");
            c.arg("-n");
            c.arg(threads);
            c.arg(input);
        },
        Tool::Pbzip2 => {
            c.arg("-d");
            c.arg("-c");
            c.arg_joined("-p", threads);
            c.arg(input);
        },
        Tool::Pxz => {
            c.arg("-d");
            c.arg("-c");
            c.arg("-T");
            c.arg(threads);
            if matches!(format, ArchiveFormat::Lzma | ArchiveFormat::TarLzma) {
                c.arg("-F");
                c.arg("lzma");
            }
            c.arg(input);
        },
        Tool::Gunzip
        | Tool::Bunzip2
        | Tool::Lunzip
        | Tool::Unxz
        | Tool::Unlzma
        | Tool::Unzstd => {
            c.arg("-c");
            c.arg(input);
        },
        _ => {
            c.arg("-d");
            c.arg("-c");
            c.arg(input);
        },
    }
    c
}

/// The command line by which tar unpacks `source` into `directory`;
/// `source` is an archive file, or `-` for the standard input.
pub open spec fn tar_extract_argv(
    program: Seq<char>,
    directory: Seq<char>,
    source: Seq<char>,
    quiet: bool,
) -> Seq<Seq<char>> {
    seq![program, "-x"@, "-C"@, directory, "-f"@, source] + flag_if(!quiet, "-v"@)
}

/// The command line by which tar unpacks `source` into `directory`.
fn tar_extract_command(program: &str, directory: &str, source: &str, quiet: bool) -> (c: Command)
    ensures
        c@ == tar_extract_argv(program@, directory@, source@, quiet),
{
    let mut c = Command::new(program);
    c.arg("-x");
    c.arg("-C");
    c.arg(directory);
    c.arg("-f");
    c.arg(source);
    c.flag(!quiet, "-v");
    c
}

/// The command line by which an archiver unpacks `input` into `directory`:
/// the 7z tool, which for a tar-wrapped archive writes the tar stream to
/// its standard output instead; unzip; unrar and rar. The password is
/// always handed over; rar is told explicitly when there is none.
pub open spec fn unpack_argv(
    program: Seq<char>,
    request: &ExtractRequest,
    format: ArchiveFormat,
    tool: Tool,
    input: Seq<char>,
    directory: Seq<char>,
    password: Seq<char>,
) -> Seq<Seq<char>> {
    let threads = decimal_text(request.threads as nat);
    match tool {
        Tool::P7z => if format == ArchiveFormat::Tar7z {
            seq![program, "x"@, "-so"@, "-mmt"@ + threads, "-p"@ + password, input]
        } else {
            seq![
                program,
                "x"@,
                "-aoa"@,
                "-mmt"@ + threads,
                "-o"@ + directory,
                "-p"@ + password,
                input,
            ]
        },
        Tool::Unzip => seq![program, "-P"@, password] + flag_if(request.quiet, "-qq"@) + seq![
            "-O"@,
            "UTF-8"@,
            "-o"@,
            input,
            "-d"@,
            directory,
        ],
        Tool::Unrar | Tool::Rar => seq![
            program,
            "x"@,
            "-o+"@,
            "-mt"@ + threads,
            if password.len() == 0 {
                "-p-"@
            } else {
                "-p"@ + password
            },
        ] + flag_if(request.quiet, "-idq"@) + seq![input, directory],
        _ => seq![program],
    }
}

/// The command line by which an archiver unpacks `input` into `directory`.
fn unpack_command(
    program: &str,
    request: &ExtractRequest,
    format: ArchiveFormat,
    tool: Tool,
    input: &str,
    directory: &str,
    password: &str,
) -> (c: Command)
    ensures
        c@ == unpack_argv(program@, request, format, tool, input@, directory@, password@),
{
    let threads = decimal(request.threads as u64);
    let mut c = Command::new(program);
    match tool {
        Tool::P7z => {
            c.arg("x");
            if matches!(format, ArchiveFormat::Tar7z) {
                c.arg("-so");
                c.arg_joined("-mmt", threads.as_str());
                c.arg_joined("-p", password);
                c.arg(input);
            } else {
                c.arg("-aoa");
                c.arg_joined("-mmt", threads.as_str());
                c.arg_joined("-o", directory);
                c.arg_joined("-p", password);
                c.arg(input);
            }
        },
        Tool::Unzip => {
            c.arg("-P");
            c.arg(password);
            c.flag(request.quiet, "-qq");
            c.arg("-O");
            c.arg("UTF-8");
            c.arg("-o");
            c.arg(input);
            c.arg("-d");
            c.arg(directory);
        },
        Tool::Unrar | Tool::Rar => {
            c.arg("x");
            c.arg("-o+");
            c.arg_joined("-mt", threads.as_str());
            if password.is_empty() {
                c.arg("-p-");
            } else {
                c.arg_joined("-p", password);
            }
            c.flag(request.quiet, "-idq");
            c.arg(input);
            c.arg(directory);
        },
        _ => {},
    }
    c
}

/// What is run when `tool` is chosen to extract `input` of `format` into
/// `directory`.
///
/// A tar-wrapped format always takes two processes: the tool writes the
/// decompressed archive to its standard output, and tar unpacks what it
/// reads from its standard input. Plain tar is unpacked by tar alone. A
/// single-file format is decompressed to the standard output. The other
/// formats are unpacked by their archiver.
pub open spec fn extract_pipeline(
    paths: &ExecutablePaths,
    request: &ExtractRequest,
    format: ArchiveFormat,
    tool: Tool,
    input: Seq<char>,
    directory: Seq<char>,
    password: Seq<char>,
) -> PipelineView {
    let program = paths.path_of(tool);
    let tar = paths.path_of(Tool::Tar);
    let threads = decimal_text(request.threads as nat);
    if format.is_tar_wrapped() {
        PipelineView::Piped(
            if tool == Tool::P7z {
                unpack_argv(program, request, format, tool, input, directory, password)
            } else {
                decompressor_argv(program, format, tool, threads, input)
            },
            tar_extract_argv(tar, directory, "-"@, request.quiet),
        )
    } else if format == ArchiveFormat::Tar {
        PipelineView::Single(tar_extract_argv(tar, directory, input, request.quiet))
    } else if format.is_single_stream() {
        PipelineView::Single(decompressor_argv(program, format, tool, threads, input))
    } else {
        PipelineView::Single(
            unpack_argv(program, request, format, tool, input, directory, password),
        )
    }
}

/// What is run when `tool` is chosen to extract `input`.
pub fn extract_commands(
    paths: &ExecutablePaths,
    request: &ExtractRequest,
    format: ArchiveFormat,
    tool: Tool,
    input: &str,
    directory: &str,
    password: &str,
) -> (p: Pipeline)
    ensures
        p@ == extract_pipeline(paths, request, format, tool, input@, directory@, password@),
{
    let program = paths.path(tool);
    let tar = paths.path(Tool::Tar);
    if format.tar_wrapped() {
        let first = if matches!(tool, Tool::P7z) {
            unpack_command(program, request, format, tool, input, directory, password)
        } else {
            let threads = decimal(request.threads as u64);
            decompressor_command(program, format, tool, threads.as_str(), input)
        };
        Pipeline::Piped(first, tar_extract_command(tar, directory, "-", request.quiet))
    } else if matches!(format, ArchiveFormat::Tar) {
        Pipeline::Single(tar_extract_command(tar, directory, input, request.quiet))
    } else if format.single_stream() {
        let threads = decimal(request.threads as u64);
        Pipeline::Single(decompressor_command(program, format, tool, threads.as_str(), input))
    } else {
        Pipeline::Single(
            unpack_command(program, request, format, tool, input, directory, password),
        )
    }
}

/// The first thing that keeps `request` from being carried out on the
/// archive `input` of `format`, if anything does: the request's own values
/// are judged first, then the password against the format; and a
/// directory cannot be a single-file archive.
pub open spec fn extract_problem(
    request: &ExtractRequest,
    format: ArchiveFormat,
    input: &InputEntry,
) -> Option<Error> {
    if request.problem() is Some {
        request.problem()
    } else if request.password is Some && !format.supports_password() {
        Some(Error::IncompatibleOption(OptionName::Password))
    } else if format.is_single_stream() && input.is_dir {
        Some(Error::MultiInputSingleFileFormat(format))
    } else {
        None
    }
}

/// Checks that `request` can be carried out on the archive `input` of
/// `format`.
pub fn check_extract(request: &ExtractRequest, format: ArchiveFormat, input: &InputEntry) -> (r:
    Result<(), Error>)
    ensures
        match r {
            Ok(_) => extract_problem(request, format, input) is None,
            Err(e) => extract_problem(request, format, input) == Some(e),
        },
{
    match request.check() {
        Err(e) => {
            return Err(e);
        },
        Ok(_) => {},
    }
    if request.password.is_some() && !format.accepts_password() {
        Err(Error::IncompatibleOption(OptionName::Password))
    } else if format.single_stream() && input.is_dir {
        Err(Error::MultiInputSingleFileFormat(format))
    } else {
        Ok(())
    }
}

/// The format of the archive `input`, which is that of its path, and that
/// nothing in the request stands against it.
pub open spec fn extract_format_verdict(request: &ExtractRequest, input: &InputEntry) -> Result<
    ArchiveFormat,
    Error,
> {
    match format_of_path(input.path@) {
        None => Err(Error::UnknownFormat),
        Some(format) => match extract_problem(request, format, input) {
            Some(e) => Err(e),
            None => Ok(format),
        },
    }
}

/// Resolves the format of the archive `input` and checks the request
/// against it.
pub fn resolve_extract(request: &ExtractRequest, input: &InputEntry) -> (r: Result<
    ArchiveFormat,
    Error,
>)
    ensures
        r == extract_format_verdict(request, input),
{
    match ArchiveFormat::get_archive_format_from_file_path(input.path.as_str()) {
        Err(_) => Err(Error::UnknownFormat),
        Ok(format) => match check_extract(request, format, input) {
            Err(e) => Err(e),
            Ok(_) => Ok(format),
        },
    }
}

/// Where the content is unpacked: where the request says, else into the
/// directory `cwd`.
pub open spec fn extract_target_of(request: &ExtractRequest, cwd: Seq<char>) -> Seq<char> {
    match request.output_path {
        Some(path) => path@,
        None => cwd,
    }
}

/// Where the content is unpacked.
pub fn extract_target(request: &ExtractRequest, cwd: &str) -> (r: String)
    ensures
        r@ == extract_target_of(request, cwd@),
{
    match &request.output_path {
        Some(path) => path.clone(),
        None => cwd.to_string(),
    }
}

/// The file that a single-file archive at `input` is decompressed to: in
/// `directory`, under the stem of the archive's name.
pub open spec fn decompressed_path(input: Seq<char>, directory: Seq<char>) -> Option<Seq<char>> {
    match path_file_name(input) {
        Some(name) => Some(path_join(directory, stem_text(name))),
        None => None,
    }
}

/// The file that a single-file archive is decompressed to.
pub fn decompressed_file(input: &str, directory: &str) -> (r: Option<String>)
    ensures
        match r {
            Some(path) => decompressed_path(input@, directory@) == Some(path@),
            None => decompressed_path(input@, directory@) is None,
        },
{
    match file_name(input) {
        Some(name) => {
            let stem = stem_of(name.as_str());
            Some(join(directory, stem.as_str()))
        },
        None => None,
    }
}

/// The candidate that stands for `tool` in extracting an archive of
/// `format`. The last candidate of a chain is not probed.
pub open spec fn extract_candidate(
    paths: &ExecutablePaths,
    request: &ExtractRequest,
    format: ArchiveFormat,
    tool: Tool,
    last: bool,
    input: Seq<char>,
    directory: Seq<char>,
    password: Seq<char>,
) -> CandidateView {
    CandidateView {
        tool,
        probe: if last {
            None
        } else {
            Some(probe_argv(paths, tool))
        },
        pipeline: extract_pipeline(paths, request, format, tool, input, directory, password),
    }
}

/// The candidates for extracting an archive of `format`, most preferred
/// first: one for each tool of the format's chain.
pub open spec fn extract_candidates(
    paths: &ExecutablePaths,
    request: &ExtractRequest,
    format: ArchiveFormat,
    input: Seq<char>,
    directory: Seq<char>,
    password: Seq<char>,
) -> Seq<CandidateView> {
    let chain = extract_chain(format, request.threads);
    Seq::new(
        chain.len(),
        |i: int|
            extract_candidate(
                paths,
                request,
                format,
                chain[i],
                i == chain.len() - 1,
                input,
                directory,
                password,
            ),
    )
}

/// The plan for extracting the archive `input` of `format` into
/// `directory`, or the reason why there is none.
///
/// The request is turned down for whatever `extract_problem` finds, a
/// directory in place of a single-file archive included, and for a
/// single-file archive whose path has no final component to name the
/// result by. Otherwise the plan holds the candidates of the format's
/// chain. A single-file archive is decompressed to a file which is
/// connected to the tool's standard output and which a failure removes.
/// The tools run in the directory that they unpack into.
/// What the 7z tool prints is discarded in quiet mode when it unpacks by
/// itself.
pub open spec fn extract_plan(
    paths: &ExecutablePaths,
    request: &ExtractRequest,
    format: ArchiveFormat,
    input: &InputEntry,
    directory: Seq<char>,
    password: Seq<char>,
) -> Result<PlanView, Error> {
    if extract_problem(request, format, input) is Some {
        Err(extract_problem(request, format, input)->0)
    } else if format.is_single_stream() && decompressed_path(input.path@, directory) is None {
        Err(Error::PathError(PathProblem::Unnamed))
    } else {
        let file = if format.is_single_stream() {
            decompressed_path(input.path@, directory)
        } else {
            None
        };
        Ok(
            PlanView {
                candidates: extract_candidates(
                    paths,
                    request,
                    format,
                    input.path@,
                    directory,
                    password,
                ),
                stdout: file,
                silent: request.quiet && format == ArchiveFormat::P7z,
                directory: Some(directory),
                follow_up: None,
                temporary: None,
                output: file,
            },
        )
    }
}

/// Plans the extraction of the archive `input` of `format` into
/// `directory`. `password` is the password of the archive, empty for none.
pub fn handle_decompression(
    paths: &ExecutablePaths,
    request: &ExtractRequest,
    format: ArchiveFormat,
    input: &InputEntry,
    directory: &str,
    password: &str,
) -> (r: Result<Plan, Error>)
    ensures
        match r {
            Ok(plan) => extract_plan(paths, request, format, input, directory@, password@) == Ok::<
                PlanView,
                Error,
            >(plan@) && plan.well_formed(),
            Err(e) => extract_plan(paths, request, format, input, directory@, password@) == Err::<
                PlanView,
                Error,
            >(e),
        },
{
    match check_extract(request, format, input) {
        Err(e) => {
            return Err(e);
        },
        Ok(_) => {},
    }
    let (stdout, output): (Option<String>, Option<String>) = if format.single_stream() {
        match decompressed_file(input.path.as_str(), directory) {
            Some(path) => (Some(path.clone()), Some(path)),
            None => {
                return Err(Error::PathError(PathProblem::Unnamed));
            },
        }
    } else {
        (None, None)
    };
    let tools = extract_tools(format, request.threads);
    let mut candidates: Vec<ToolCandidate> = Vec::new();
    let mut i: usize = 0;
    while i < tools.len()
        invariant
            i <= tools@.len(),
            tools@ == extract_chain(format, request.threads),
            tools@.len() >= 1,
            candidates@.len() == i,
            forall|j: int|
                0 <= j < i ==> (#[trigger] candidates@[j])@ == extract_candidate(
                    paths,
                    request,
                    format,
                    tools@[j],
                    j == tools@.len() - 1,
                    input.path@,
                    directory@,
                    password@,
                ),
        decreases tools@.len() - i,
    {
        let tool = tools[i];
        let last = i + 1 == tools.len();
        let pipeline = extract_commands(
            paths,
            request,
            format,
            tool,
            input.path.as_str(),
            directory,
            password,
        );
        let probe = if last {
            None
        } else {
            Some(probe_command(paths, tool))
        };
        candidates.push(ToolCandidate { tool, probe, pipeline });
        i += 1;
    }
    let silent = request.quiet && matches!(format, ArchiveFormat::P7z);
    let plan = Plan {
        candidates,
        stdout,
        silent,
        directory: Some(directory.to_string()),
        follow_up: None,
        temporary: None,
        output,
    };
    assert(plan@.candidates =~= extract_candidates(
        paths,
        request,
        format,
        input.path@,
        directory@,
        password@,
    ));
    Ok(plan)
}

} // verus!
