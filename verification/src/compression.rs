//! Archiving: which tools to try for a request, and with which arguments.

use vstd::prelude::*;

use crate::archive_format::{format_of_path, ArchiveFormat};
use crate::command::{flag_if, texts, CandidateView, Command, Pipeline, PipelineView, ToolCandidate};
use crate::error::{Error, OptionName, PathProblem};
use crate::facts::{input_texts, InputEntry};
use crate::path::{
    file_name, join, opt_text, parent, path_file_name, path_join, path_parent,
};
use crate::plan::{Plan, PlanView};
use crate::request::{ArchiveRequest, CompressionLevel};
use crate::text::{decimal, decimal_text, stem_of, stem_text};
use crate::tool::{ExecutablePaths, Tool};

verus! {

/// The number of KiB in `bytes`, rounded to the nearest whole number, halves
/// upwards, and capped at what 32 bits hold.
pub open spec fn volume_kib(bytes: u128) -> u32 {
    let rounded = (bytes + 512) / 1024;
    if rounded > u32::MAX {
        u32::MAX
    } else {
        rounded as u32
    }
}

/// The number of KiB in `bytes`, rounded to the nearest whole number.
pub fn volume_size(bytes: u128) -> (k: u32)
    ensures
        k == volume_kib(bytes),
{
    let whole: u128 = bytes / 1024;
    let rest: u128 = bytes % 1024;
    let rounded: u128 = if rest >= 512 {
        whole + 1
    } else {
        whole
    };
    if rounded > 4294967295 {
        4294967295
    } else {
        rounded as u32
    }
}

/// The size of a volume as the tools want it written: a number of KiB
/// followed by `k`.
pub open spec fn volume_text(bytes: u128) -> Seq<char> {
    decimal_text(volume_kib(bytes) as nat) + "k"@
}

/// The size of a volume as the tools want it written.
pub fn volume_argument(bytes: u128) -> (s: String)
    ensures
        s@ == volume_text(bytes),
{
    decimal(volume_size(bytes) as u64).concat("k")
}

/// The tools to try for archiving to `format`, most preferred first. The
/// last one is the canonical tool, which is used without being probed. A
/// parallel tool comes before it when more than one thread may be used and,
/// for gzip, also when the best compression is asked for.
pub open spec fn archive_chain(
    format: ArchiveFormat,
    threads: usize,
    level: CompressionLevel,
) -> Seq<Tool> {
    let many = threads > 1;
    match format {
        ArchiveFormat::TarZ | ArchiveFormat::Z => seq![Tool::Compress],
        ArchiveFormat::TarGzip | ArchiveFormat::Gzip => if many || level
            == CompressionLevel::Best {
            seq![Tool::Pigz, Tool::Gzip]
        } else {
            seq![Tool::Gzip]
        },
        ArchiveFormat::TarBzip2 | ArchiveFormat::Bzip2 => if many {
            seq![Tool::Lbzip2, Tool::Pbzip2, Tool::Bzip2]
        } else {
            seq![Tool::Bzip2]
        },
        ArchiveFormat::TarLz | ArchiveFormat::Lz => if many {
            seq![Tool::Plzip, Tool::Lzip]
        } else {
            seq![Tool::Lzip]
        },
        ArchiveFormat::TarXz | ArchiveFormat::Xz => if many {
            seq![Tool::Pxz, Tool::Xz]
        } else {
            seq![Tool::Xz]
        },
        ArchiveFormat::TarLzma | ArchiveFormat::Lzma => if many {
            seq![Tool::Pxz, Tool::Lzma]
        } else {
            seq![Tool::Lzma]
        },
        ArchiveFormat::TarZstd | ArchiveFormat::Zstd => if many {
            seq![Tool::Pzstd, Tool::Zstd]
        } else {
            seq![Tool::Zstd]
        },
        ArchiveFormat::Tar => seq![Tool::Tar],
        ArchiveFormat::Tar7z | ArchiveFormat::P7z | ArchiveFormat::Zip => seq![Tool::P7z],
        ArchiveFormat::Rar => seq![Tool::Rar],
    }
}

/// The tools to try for archiving to `format`, most preferred first.
pub fn archive_tools(format: ArchiveFormat, threads: usize, level: CompressionLevel) -> (r: Vec<
    Tool,
>)
    ensures
        r@ == archive_chain(format, threads, level),
        r@.len() >= 1,
{
    let many = threads > 1;
    let mut r: Vec<Tool> = Vec::new();
    match format {
        ArchiveFormat::TarZ | ArchiveFormat::Z => {
            r.push(Tool::Compress);
        },
        ArchiveFormat::TarGzip | ArchiveFormat::Gzip => {
            if many || matches!(level, CompressionLevel::Best) {
                r.push(Tool::Pigz);
            }
            r.push(Tool::Gzip);
        },
        ArchiveFormat::TarBzip2 | ArchiveFormat::Bzip2 => {
            if many {
                r.push(Tool::Lbzip2);
                r.push(Tool::Pbzip2);
            }
            r.push(Tool::Bzip2);
        },
        ArchiveFormat::TarLz | ArchiveFormat::Lz => {
            if many {
                r.push(Tool::Plzip);
            }
            r.push(Tool::Lzip);
        },
        ArchiveFormat::TarXz | ArchiveFormat::Xz => {
            if many {
                r.push(Tool::Pxz);
            }
            r.push(Tool::Xz);
        },
        ArchiveFormat::TarLzma | ArchiveFormat::Lzma => {
            if many {
                r.push(Tool::Pxz);
            }
            r.push(Tool::Lzma);
        },
        ArchiveFormat::TarZstd | ArchiveFormat::Zstd => {
            if many {
                r.push(Tool::Pzstd);
            }
            r.push(Tool::Zstd);
        },
        ArchiveFormat::Tar => {
            r.push(Tool::Tar);
        },
        ArchiveFormat::Tar7z | ArchiveFormat::P7z | ArchiveFormat::Zip => {
            r.push(Tool::P7z);
        },
        ArchiveFormat::Rar => {
            r.push(Tool::Rar);
        },
    }
    r
}

/// The arguments by which `tool` is told the compression level when it
/// writes `format`. The default level needs none.
pub open spec fn level_flags(tool: Tool, format: ArchiveFormat, level: CompressionLevel) -> Seq<
    Seq<char>,
> {
    match level {
        CompressionLevel::Default => Seq::empty(),
        CompressionLevel::Best => match tool {
            Tool::Pigz => if format.is_tar_wrapped() {
                seq!["-11"@]
            } else {
                seq!["-9"@]
            },
            Tool::Gzip
            | Tool::Lbzip2
            | Tool::Pbzip2
            | Tool::Bzip2
            | Tool::Plzip
            | Tool::Lzip
            | Tool::Zip => seq!["-9"@],
            Tool::Pxz | Tool::Xz | Tool::Lzma => seq!["-9"@, "-e"@],
            Tool::Pzstd | Tool::Zstd => seq!["--ultra"@, "-22"@],
            Tool::P7z => if format == ArchiveFormat::Zip {
                seq!["-mx"@]
            } else {
                seq!["-m0=lzma2"@, "-mx"@, "-ms=on"@]
            },
            Tool::Rar => seq!["-ma5"@, "-m5"@, "-s"@],
            _ => Seq::empty(),
        },
        CompressionLevel::Fast => match tool {
            Tool::Pigz
            | Tool::Gzip
            | Tool::Lbzip2
            | Tool::Pbzip2
            | Tool::Bzip2
            | Tool::Plzip
            | Tool::Lzip
            | Tool::Pzstd
            | Tool::Zstd => seq!["-1"@],
            Tool::Pxz | Tool::Xz | Tool::Lzma | Tool::Zip => seq!["-0"@],
            Tool::P7z => if format == ArchiveFormat::Zip {
                seq!["-mx=0"@]
            } else {
                seq!["-m0=copy"@]
            },
            Tool::Rar => seq!["-m0"@],
            _ => Seq::empty(),
        },
    }
}

/// Appends the level arguments of `tool` to `command`.
fn push_level(command: &mut Command, tool: Tool, format: ArchiveFormat, level: CompressionLevel)
    ensures
        final(command)@ == old(command)@ + level_flags(tool, format, level),
{
    match level {
        CompressionLevel::Default => {},
        CompressionLevel::Best => match tool {
            Tool::Pigz => {
                if format.tar_wrapped() {
                    command.arg("-11");
                } else {
                    command.arg("-9");
                }
            },
            Tool::Gzip
            | Tool::Lbzip2
            | Tool::Pbzip2
            | Tool::Bzip2
            | Tool::Plzip
            | Tool::Lzip
            | Tool::Zip => {
                command.arg("-9");
            },
            Tool::Pxz | Tool::Xz | Tool::Lzma => {
                command.arg("-9");
                command.arg("-e");
            },
            Tool::Pzstd | Tool::Zstd => {
                command.arg("--ultra");
                command.arg("-22");
            },
            Tool::P7z => {
                if matches!(format, ArchiveFormat::Zip) {
                    command.arg("-mx");
                } else {
                    command.arg("-m0=lzma2");
                    command.arg("-mx");
                    command.arg("-ms=on");
                }
            },
            Tool::Rar => {
                command.arg("-ma5");
                command.arg("-m5");
                command.arg("-s");
            },
            _ => {},
        },
        CompressionLevel::Fast => match tool {
            Tool::Pigz
            | Tool::Gzip
            | Tool::Lbzip2
            | Tool::Pbzip2
            | Tool::Bzip2
            | Tool::Plzip
            | Tool::Lzip
            | Tool::Pzstd
            | Tool::Zstd => {
                command.arg("-1");
            },
            Tool::Pxz | Tool::Xz | Tool::Lzma | Tool::Zip => {
                command.arg("-0");
            },
            Tool::P7z => {
                if matches!(format, ArchiveFormat::Zip) {
                    command.arg("-mx=0");
                } else {
                    command.arg("-m0=copy");
                }
            },
            Tool::Rar => {
                command.arg("-m0");
            },
            _ => {},
        },
    }
}

/// The arguments by which `tool` is given the password when it writes
/// `format`. An empty password stands for none and needs no argument.
pub open spec fn password_flags(tool: Tool, format: ArchiveFormat, password: Seq<char>) -> Seq<
    Seq<char>,
> {
    if password.len() == 0 {
        Seq::empty()
    } else {
        match tool {
            Tool::P7z => if format == ArchiveFormat::Zip {
                seq!["-p"@ + password]
            } else {
                seq!["-mhe=on"@, "-p"@ + password]
            },
            Tool::Rar => seq!["-hp"@ + password],
            Tool::Zip => seq!["--password"@, password],
            _ => Seq::empty(),
        }
    }
}

/// Appends the password arguments of `tool` to `command`.
fn push_password(command: &mut Command, tool: Tool, format: ArchiveFormat, password: &str)
    ensures
        final(command)@ == old(command)@ + password_flags(tool, format, password@),
{
    if !password.is_empty() {
        match tool {
            Tool::P7z => {
                if matches!(format, ArchiveFormat::Zip) {
                    command.arg_joined("-p", password);
                } else {
                    command.arg("-mhe=on");
                    command.arg_joined("-p", password);
                }
            },
            Tool::Rar => {
                command.arg_joined("-hp", password);
            },
            Tool::Zip => {
                command.arg("--password");
                command.arg(password);
            },
            _ => {},
        }
    }
}

/// The argument that asks for volumes of the given size, if one is given.
pub open spec fn split_flag(split: Option<u128>) -> Seq<Seq<char>> {
    match split {
        Some(bytes) => seq!["-v"@ + volume_text(bytes)],
        None => Seq::empty(),
    }
}

/// Appends the volume argument to `command`.
fn push_split(command: &mut Command, split: Option<u128>)
    ensures
        final(command)@ == old(command)@ + split_flag(split),
{
    if let Some(bytes) = split {
        let size = volume_argument(bytes);
        command.arg_joined("-v", size.as_str());
    }
}

/// The argument that asks for a recovery record, if one is asked for.
pub open spec fn recovery_flag(recovery_record: Option<u8>) -> Seq<Seq<char>> {
    match recovery_record {
        Some(percent) => seq!["-rr"@ + decimal_text(percent as nat)],
        None => Seq::empty(),
    }
}

/// Appends the recovery record argument to `command`.
fn push_recovery(command: &mut Command, recovery_record: Option<u8>)
    ensures
        final(command)@ == old(command)@ + recovery_flag(recovery_record),
{
    if let Some(percent) = recovery_record {
        let number = decimal(percent as u64);
        command.arg_joined("-rr", number.as_str());
    }
}

/// Appends the paths of `inputs` to `command`.
fn push_inputs(command: &mut Command, inputs: &Vec<InputEntry>)
    ensures
        final(command)@ == old(command)@ + input_texts(inputs@),
{
    let mut i: usize = 0;
    while i < inputs.len()
        invariant
            i <= inputs@.len(),
            command@ == old(command)@ + input_texts(inputs@.take(i as int)),
        decreases inputs@.len() - i,
    {
        command.arg(inputs[i].path.as_str());
        i += 1;
    }
}

/// How tar is told what to store: for each input the directory to change
/// to, which is the input's parent, and the name to store, which is the
/// input's final component. There is no answer if an input lacks either.
pub open spec fn tar_members(inputs: Seq<InputEntry>) -> Option<Seq<Seq<char>>>
    decreases inputs.len(),
{
    if inputs.len() == 0 {
        Some(Seq::empty())
    } else {
        let last = inputs.last().path@;
        match (tar_members(inputs.drop_last()), path_parent(last), path_file_name(last)) {
            (Some(head), Some(directory), Some(name)) => Some(head + seq!["-C"@, directory, name]),
            _ => None,
        }
    }
}

/// The arguments that tell tar what to store.
pub fn tar_member_arguments(inputs: &Vec<InputEntry>) -> (r: Result<Vec<String>, Error>)
    ensures
        match r {
            Ok(members) => tar_members(inputs@) == Some(texts(members@)),
            Err(e) => tar_members(inputs@) is None && e == Error::PathError(PathProblem::Unnamed),
        },
{
    let mut members: Vec<String> = Vec::new();
    let mut i: usize = 0;
    while i < inputs.len()
        invariant
            i <= inputs@.len(),
            tar_members(inputs@.take(i as int)) == Some(texts(members@)),
        decreases inputs@.len() - i,
    {
        proof {
            assert(inputs@.take(i as int + 1).drop_last() =~= inputs@.take(i as int));
        }
        let path = inputs[i].path.as_str();
        let directory = parent(path);
        let name = file_name(path);
        match (directory, name) {
            (Some(directory), Some(name)) => {
                members.push("-C".to_string());
                members.push(directory);
                members.push(name);
            },
            _ => {
                proof {
                    lemma_tar_members_prefix(inputs@, i as int + 1);
                }
                return Err(Error::PathError(PathProblem::Unnamed));
            },
        }
        i += 1;
    }
    assert(inputs@.take(i as int) =~= inputs@);
    Ok(members)
}

/// If tar cannot be told how to store the first `n` inputs, it cannot be
/// told how to store all of them.
proof fn lemma_tar_members_prefix(inputs: Seq<InputEntry>, n: int)
    requires
        0 <= n <= inputs.len(),
        tar_members(inputs.take(n)) is None,
    ensures
        tar_members(inputs) is None,
    decreases inputs.len(),
{
    if n == inputs.len() {
        assert(inputs.take(n) =~= inputs);
    } else {
        assert(inputs.drop_last().take(n) =~= inputs.take(n));
        lemma_tar_members_prefix(inputs.drop_last(), n);
    }
}

/// What a stream compressor is given to read: the standard input after
/// tar, else the first input.
pub open spec fn archive_source(format: ArchiveFormat, inputs: Seq<InputEntry>) -> Seq<char> {
    if format.is_tar_wrapped() {
        "-"@
    } else if inputs.len() >= 1 {
        inputs[0].path@
    } else {
        ""@
    }
}

/// Whether `tool` compresses one stream of bytes.
pub open spec fn is_compressor(tool: Tool) -> bool {
    matches!(
        tool,
        Tool::Compress
            | Tool::Pigz
            | Tool::Gzip
            | Tool::Lbzip2
            | Tool::Pbzip2
            | Tool::Bzip2
            | Tool::Plzip
            | Tool::Lzip
            | Tool::Pxz
            | Tool::Xz
            | Tool::Lzma
            | Tool::Pzstd
            | Tool::Zstd
    )
}

/// The start of the command line of a stream compressor: the program, what
/// makes it compress `source` to its standard output or to `target`, and
/// the number of threads for a parallel tool. After tar, pigz is given no
/// file at all and so reads its standard input; the other tools are told
/// to by the source `-`.
pub open spec fn compressor_head(
    program: Seq<char>,
    format: ArchiveFormat,
    tool: Tool,
    threads: Seq<char>,
    source: Seq<char>,
    target: Seq<char>,
) -> Seq<Seq<char>> {
    match tool {
        Tool::Compress | Tool::Gzip => seq![program, "-c"@, source],
        Tool::Pigz => if format.is_tar_wrapped() {
            seq![program, "-c"@, "-p"@, threads]
        } else {
            seq![program, "-c"@, "-p"@, threads, source]
        },
        Tool::Lbzip2 => seq![program, "-z"@, "-c"@, "-n"@, threads, source],
        Tool::Pbzip2 => seq![program, "-z"@, "-c"@, "-p"@ + threads, source],
        Tool::Plzip => seq![program, "-F"@, "-c"@, "-n"@, threads, source],
        Tool::Lzip => seq![program, "-F"@, "-c"@, source],
        Tool::Pxz => if format == ArchiveFormat::Lzma || format == ArchiveFormat::TarLzma {
            seq![program, "-z"@, "-c"@, "-T"@, threads, "-F"@, "lzma"@, source]
        } else {
            seq![program, "-z"@, "-c"@, "-T"@, threads, source]
        },
        Tool::Bzip2 | Tool::Xz | Tool::Lzma => seq![program, "-z"@, "-c"@, source],
        Tool::Pzstd => seq![program, "-p"@, threads, source, "-o"@, target],
        Tool::Zstd => seq![program, source, "-o"@, target],
        _ => seq![program],
    }
}

/// The start of the command line of a stream compressor.
fn compressor_start(
    program: &str,
    format: ArchiveFormat,
    tool: Tool,
    threads: &str,
    source: &str,
    target: &str,
) -> (c: Command)
    ensures
        c@ == compressor_head(program@, format, tool, threads@, source@, target@),
{
    let mut c = Command::new(program);
    match tool {
        Tool::Compress | Tool::Gzip => {
            c.arg("-c");
            c.arg(source);
        },
        Tool::Pigz => {
            c.arg("-c");
            c.arg("-p");
            c.arg(threads);
            if !format.tar_wrapped() {
                c.arg(source);
            }
        },
        Tool::Lbzip2 => {
            c.arg("-z");
            c.arg("-c");
            c.arg("-n");
            c.arg(threads);
            c.arg(source);
        },
        Tool::Pbzip2 => {
            c.arg("-z");
            c.arg("-c");
            c.arg_joined("-p", threads);
            c.arg(source);
        },
        Tool::Plzip => {
            c.arg("-F");
            c.arg("-c");
            c.arg("-n");
            c.arg(threads);
            c.arg(source);
        },
        Tool::Lzip => {
            c.arg("-F");
            c.arg("-c");
            c.arg(source);
        },
        Tool::Pxz => {
            c.arg("-z");
            c.arg("-c");
            c.arg("-T");
            c.arg(threads);
            if matches!(format, ArchiveFormat::Lzma | ArchiveFormat::TarLzma) {
                c.arg("-F");
                c.arg("lzma");
            }
            c.arg(source);
        },
        Tool::Bzip2 | Tool::Xz | Tool::Lzma => {
            c.arg("-z");
            c.arg("-c");
            c.arg(source);
        },
        Tool::Pzstd => {
            c.arg("-p");
            c.arg(threads);
            c.arg(source);
            c.arg("-o");
            c.arg(target);
        },
        Tool::Zstd => {
            c.arg(source);
            c.arg("-o");
            c.arg(target);
        },
        _ => {},
    }
    c
}

/// The command line by which the 7z tool writes an archive of `format` to
/// `target`: a zip archive, a 7z archive of the inputs, or a 7z archive of
/// the tar stream on its standard input.
pub open spec fn seven_zip_argv(
    program: Seq<char>,
    request: &ArchiveRequest,
    format: ArchiveFormat,
    inputs: Seq<InputEntry>,
    target: Seq<char>,
    password: Seq<char>,
) -> Seq<Seq<char>> {
    let threads = decimal_text(request.threads as nat);
    let level = level_flags(Tool::P7z, format, request.level);
    let secret = password_flags(Tool::P7z, format, password);
    match format {
        ArchiveFormat::Zip => seq![program, "a"@, "-tzip"@, "-aoa"@, "-mmt"@ + threads] + level
            + secret + seq![target] + input_texts(inputs),
        ArchiveFormat::Tar7z => seq![program, "a"@, "-t7z"@, "-aoa"@, "-mmt"@ + threads, "-si"@]
            + level + secret + split_flag(request.split) + seq![target],
        _ => seq![program, "a"@, "-t7z"@, "-aoa"@, "-mmt"@ + threads] + level + secret
            + split_flag(request.split) + seq![target] + input_texts(inputs),
    }
}

/// The command line by which the 7z tool writes an archive.
fn seven_zip_command(
    program: &str,
    request: &ArchiveRequest,
    format: ArchiveFormat,
    inputs: &Vec<InputEntry>,
    target: &str,
    password: &str,
) -> (c: Command)
    ensures
        c@ == seven_zip_argv(program@, request, format, inputs@, target@, password@),
{
    let threads = decimal(request.threads as u64);
    let mut c = Command::new(program);
    c.arg("a");
    match format {
        ArchiveFormat::Zip => {
            c.arg("-tzip");
            c.arg("-aoa");
            c.arg_joined("-mmt", threads.as_str());
            push_level(&mut c, Tool::P7z, format, request.level);
            push_password(&mut c, Tool::P7z, format, password);
            c.arg(target);
            push_inputs(&mut c, inputs);
        },
        ArchiveFormat::Tar7z => {
            c.arg("-t7z");
            c.arg("-aoa");
            c.arg_joined("-mmt", threads.as_str());
            c.arg("-si");
            push_level(&mut c, Tool::P7z, format, request.level);
            push_password(&mut c, Tool::P7z, format, password);
            push_split(&mut c, request.split);
            c.arg(target);
        },
        _ => {
            c.arg("-t7z");
            c.arg("-aoa");
            c.arg_joined("-mmt", threads.as_str());
            push_level(&mut c, Tool::P7z, format, request.level);
            push_password(&mut c, Tool::P7z, format, password);
            push_split(&mut c, request.split);
            c.arg(target);
            push_inputs(&mut c, inputs);
        },
    }
    c
}

/// The command line by which rar writes an archive of the inputs to
/// `target`.
pub open spec fn rar_argv(
    program: Seq<char>,
    request: &ArchiveRequest,
    inputs: Seq<InputEntry>,
    target: Seq<char>,
    password: Seq<char>,
) -> Seq<Seq<char>> {
    seq![program, "a"@, "-ep1"@, "-mt"@ + decimal_text(request.threads as nat)] + level_flags(
        Tool::Rar,
        ArchiveFormat::Rar,
        request.level,
    ) + password_flags(Tool::Rar, ArchiveFormat::Rar, password) + flag_if(request.quiet, "-idq"@)
        + split_flag(request.split) + recovery_flag(request.recovery_record) + seq![target]
        + input_texts(inputs)
}

/// The command line by which rar writes an archive.
fn rar_command(
    program: &str,
    request: &ArchiveRequest,
    inputs: &Vec<InputEntry>,
    target: &str,
    password: &str,
) -> (c: Command)
    ensures
        c@ == rar_argv(program@, request, inputs@, target@, password@),
{
    let threads = decimal(request.threads as u64);
    let mut c = Command::new(program);
    c.arg("a");
    c.arg("-ep1");
    c.arg_joined("-mt", threads.as_str());
    push_level(&mut c, Tool::Rar, ArchiveFormat::Rar, request.level);
    push_password(&mut c, Tool::Rar, ArchiveFormat::Rar, password);
    c.flag(request.quiet, "-idq");
    push_split(&mut c, request.split);
    push_recovery(&mut c, request.recovery_record);
    c.arg(target);
    push_inputs(&mut c, inputs);
    c
}

/// The command line by which tar alone writes an archive to `target`.
pub open spec fn tar_argv(
    program: Seq<char>,
    quiet: bool,
    members: Seq<Seq<char>>,
    target: Seq<char>,
) -> Seq<Seq<char>> {
    seq![program, "-c"@] + flag_if(!quiet, "-v"@) + seq!["-f"@, target] + members
}

/// The command line by which tar alone writes an archive.
fn tar_command(program: &str, quiet: bool, members: &Vec<String>, target: &str) -> (c: Command)
    ensures
        c@ == tar_argv(program@, quiet, texts(members@), target@),
{
    let mut c = Command::new(program);
    c.arg("-c");
    c.flag(!quiet, "-v");
    c.arg("-f");
    c.arg(target);
    c.args(members);
    c
}

/// The command line by which tar writes what it is told to store to its
/// standard output, for a compressor to read.
pub open spec fn tar_stream_argv(program: Seq<char>, members: Seq<Seq<char>>) -> Seq<Seq<char>> {
    seq![program, "-c"@, "-f"@, "-"@] + members
}

/// The command line by which tar writes to its standard output.
fn tar_stream_command(program: &str, members: &Vec<String>) -> (c: Command)
    ensures
        c@ == tar_stream_argv(program@, texts(members@)),
{
    let mut c = Command::new(program);
    c.arg("-c");
    c.arg("-f");
    c.arg("-");
    c.args(members);
    c
}

/// The command line by which `tool` writes an archive of `format` to
/// `target`. `members` is what tar is told to store.
pub open spec fn archive_argv(
    paths: &ExecutablePaths,
    request: &ArchiveRequest,
    format: ArchiveFormat,
    tool: Tool,
    inputs: Seq<InputEntry>,
    members: Seq<Seq<char>>,
    target: Seq<char>,
    password: Seq<char>,
) -> Seq<Seq<char>> {
    let program = paths.path_of(tool);
    if tool == Tool::Compress {
        compressor_head(
            program,
            format,
            tool,
            decimal_text(request.threads as nat),
            archive_source(format, inputs),
            target,
        )
    } else if is_compressor(tool) {
        compressor_head(
            program,
            format,
            tool,
            decimal_text(request.threads as nat),
            archive_source(format, inputs),
            target,
        ) + flag_if(request.quiet, "-q"@) + level_flags(tool, format, request.level)
    } else if tool == Tool::Tar {
        tar_argv(program, request.quiet, members, target)
    } else if tool == Tool::P7z {
        seven_zip_argv(program, request, format, inputs, target, password)
    } else if tool == Tool::Rar {
        rar_argv(program, request, inputs, target, password)
    } else {
        seq![program]
    }
}

/// The command line by which `tool` writes an archive of `format` to
/// `target`.
pub fn archive_command(
    paths: &ExecutablePaths,
    request: &ArchiveRequest,
    format: ArchiveFormat,
    tool: Tool,
    inputs: &Vec<InputEntry>,
    members: &Vec<String>,
    target: &str,
    password: &str,
) -> (c: Command)
    ensures
        c@ == archive_argv(
            paths,
            request,
            format,
            tool,
            inputs@,
            texts(members@),
            target@,
            password@,
        ),
{
    let program = paths.path(tool);
    match tool {
        Tool::Compress
        | Tool::Pigz
        | Tool::Gzip
        | Tool::Lbzip2
        | Tool::Pbzip2
        | Tool::Bzip2
        | Tool::Plzip
        | Tool::Lzip
        | Tool::Pxz
        | Tool::Xz
        | Tool::Lzma
        | Tool::Pzstd
        | Tool::Zstd => {
            let threads = decimal(request.threads as u64);
            let source = if format.tar_wrapped() {
                "-"
            } else if inputs.len() >= 1 {
                inputs[0].path.as_str()
            } else {
                ""
            };
            let mut c = compressor_start(program, format, tool, threads.as_str(), source, target);
            if !matches!(tool, Tool::Compress) {
                c.flag(request.quiet, "-q");
                push_level(&mut c, tool, format, request.level);
            }
            c
        },
        Tool::Tar => tar_command(program, request.quiet, members, target),
        Tool::P7z => seven_zip_command(program, request, format, inputs, target, password),
        Tool::Rar => rar_command(program, request, inputs, target, password),
        _ => Command::new(program),
    }
}

/// The first thing that keeps `request` from being carried out with
/// `format` on `inputs`, if anything does. The request's own values are
/// judged first, a split size below the minimum before everything else;
/// then the options that the format does not support; then the number and
/// kind of the inputs.
pub open spec fn archive_problem(
    request: &ArchiveRequest,
    format: ArchiveFormat,
    inputs: Seq<InputEntry>,
) -> Option<Error> {
    if request.problem() is Some {
        request.problem()
    } else if inputs.len() == 0 {
        Some(Error::PathError(PathProblem::NoInput))
    } else if request.password is Some && !format.supports_password() {
        Some(Error::IncompatibleOption(OptionName::Password))
    } else if request.split is Some && !format.supports_split() {
        Some(Error::IncompatibleOption(OptionName::Split))
    } else if request.recovery_record is Some && !format.supports_recovery_record() {
        Some(Error::IncompatibleOption(OptionName::RecoveryRecord))
    } else if format.is_single_stream() && (inputs.len() > 1 || inputs[0].is_dir) {
        Some(Error::MultiInputSingleFileFormat(format))
    } else {
        None
    }
}

/// Checks that `request` can be carried out with `format` on `inputs`.
pub fn check_archive(request: &ArchiveRequest, format: ArchiveFormat, inputs: &Vec<InputEntry>) -> (r:
    Result<(), Error>)
    ensures
        match r {
            Ok(_) => archive_problem(request, format, inputs@) is None,
            Err(e) => archive_problem(request, format, inputs@) == Some(e),
        },
{
    match request.check() {
        Err(e) => {
            return Err(e);
        },
        Ok(_) => {},
    }
    if inputs.len() == 0 {
        return Err(Error::PathError(PathProblem::NoInput));
    }
    if request.password.is_some() && !format.accepts_password() {
        return Err(Error::IncompatibleOption(OptionName::Password));
    }
    if request.split.is_some() && !format.accepts_split() {
        return Err(Error::IncompatibleOption(OptionName::Split));
    }
    if request.recovery_record.is_some() && !format.accepts_recovery_record() {
        return Err(Error::IncompatibleOption(OptionName::RecoveryRecord));
    }
    if format.single_stream() && (inputs.len() > 1 || inputs[0].is_dir) {
        return Err(Error::MultiInputSingleFileFormat(format));
    }
    Ok(())
}

/// Where the archive goes: where the request says, else into the directory
/// `cwd` under the name of the first input followed by `.rar`.
pub open spec fn archive_target_of(
    request: &ArchiveRequest,
    inputs: Seq<InputEntry>,
    cwd: Seq<char>,
) -> Result<Seq<char>, Error> {
    match request.output_path {
        Some(path) => Ok(path@),
        None => if inputs.len() == 0 {
            Err(Error::PathError(PathProblem::NoInput))
        } else {
            match path_file_name(inputs[0].path@) {
                Some(name) => Ok(path_join(cwd, name + ".rar"@)),
                None => Err(Error::PathError(PathProblem::Unnamed)),
            }
        },
    }
}

/// Where the archive goes.
pub fn archive_target(request: &ArchiveRequest, inputs: &Vec<InputEntry>, cwd: &str) -> (r: Result<
    String,
    Error,
>)
    ensures
        match r {
            Ok(path) => archive_target_of(request, inputs@, cwd@) == Ok::<Seq<char>, Error>(path@),
            Err(e) => archive_target_of(request, inputs@, cwd@) == Err::<Seq<char>, Error>(e),
        },
{
    match &request.output_path {
        Some(path) => Ok(path.clone()),
        None => {
            if inputs.len() == 0 {
                return Err(Error::PathError(PathProblem::NoInput));
            }
            match file_name(inputs[0].path.as_str()) {
                Some(name) => {
                    let name = name.concat(".rar");
                    Ok(join(cwd, name.as_str()))
                },
                None => Err(Error::PathError(PathProblem::Unnamed)),
            }
        },
    }
}

/// The format to write for `request` and that nothing in the request
/// stands against it: the format is that of the path `target`.
pub open spec fn archive_format_verdict(
    request: &ArchiveRequest,
    inputs: Seq<InputEntry>,
    target: Seq<char>,
) -> Result<ArchiveFormat, Error> {
    if request.problem() is Some {
        Err(request.problem()->0)
    } else {
        match format_of_path(target) {
            None => Err(Error::UnknownFormat),
            Some(format) => match archive_problem(request, format, inputs) {
                Some(e) => Err(e),
                None => Ok(format),
            },
        }
    }
}

/// Resolves the format to write and checks the request against it.
pub fn resolve_archive(request: &ArchiveRequest, inputs: &Vec<InputEntry>, target: &str) -> (r:
    Result<ArchiveFormat, Error>)
    ensures
        r == archive_format_verdict(request, inputs@, target@),
{
    match request.check() {
        Err(e) => {
            return Err(e);
        },
        Ok(_) => {},
    }
    match ArchiveFormat::get_archive_format_from_file_path(target) {
        Err(_) => Err(Error::UnknownFormat),
        Ok(format) => match check_archive(request, format, inputs) {
            Err(e) => Err(e),
            Ok(_) => Ok(format),
        },
    }
}

/// Whether the archive is first written whole to a temporary file and then
/// split: so it is for a zip archive in volumes.
pub open spec fn needs_temporary(request: &ArchiveRequest, format: ArchiveFormat) -> bool {
    format == ArchiveFormat::Zip && request.split is Some
}

/// The temporary file beside `output`: in the same directory, named by the
/// stem of the output's name followed by `.tmp.zip`.
pub open spec fn temporary_path(output: Seq<char>) -> Option<Seq<char>> {
    match (path_parent(output), path_file_name(output)) {
        (Some(directory), Some(name)) => Some(path_join(directory, stem_text(name) + ".tmp.zip"@)),
        _ => None,
    }
}

/// The temporary file beside `output`.
pub fn temporary_beside(output: &str) -> (r: Option<String>)
    ensures
        match r {
            Some(path) => temporary_path(output@) == Some(path@),
            None => temporary_path(output@) is None,
        },
{
    match (parent(output), file_name(output)) {
        (Some(directory), Some(name)) => {
            let name = stem_of(name.as_str()).concat(".tmp.zip");
            Some(join(directory.as_str(), name.as_str()))
        },
        _ => None,
    }
}

/// The command line by which zip splits the archive `temporary` into
/// volumes that start at `output`.
pub open spec fn resplit_argv(
    program: Seq<char>,
    request: &ArchiveRequest,
    temporary: Seq<char>,
    output: Seq<char>,
    password: Seq<char>,
) -> Seq<Seq<char>> {
    seq![program, "-s"@, volume_text(request.split->0)] + level_flags(
        Tool::Zip,
        ArchiveFormat::Zip,
        request.level,
    ) + password_flags(Tool::Zip, ArchiveFormat::Zip, password) + flag_if(request.quiet, "-q"@)
        + seq![temporary, "--out"@, output]
}

/// The command line by which zip splits an archive into volumes.
fn resplit_command(
    program: &str,
    request: &ArchiveRequest,
    temporary: &str,
    output: &str,
    password: &str,
) -> (c: Command)
    requires
        request.split is Some,
    ensures
        c@ == resplit_argv(program@, request, temporary@, output@, password@),
{
    let size = match request.split {
        Some(bytes) => volume_argument(bytes),
        None => String::new(),
    };
    let mut c = Command::new(program);
    c.arg("-s");
    c.arg(size.as_str());
    push_level(&mut c, Tool::Zip, ArchiveFormat::Zip, request.level);
    push_password(&mut c, Tool::Zip, ArchiveFormat::Zip, password);
    c.flag(request.quiet, "-q");
    c.arg(temporary);
    c.arg("--out");
    c.arg(output);
    c
}

/// Whether tar is told what to store: for the tar-wrapped formats and for
/// plain tar.
pub open spec fn needs_members(format: ArchiveFormat) -> bool {
    format.is_tar_wrapped() || format == ArchiveFormat::Tar
}

/// Whether the tool writes the archive to its standard output, which is
/// then connected to the output file.
pub open spec fn writes_to_stdout(format: ArchiveFormat) -> bool {
    matches!(
        format,
        ArchiveFormat::TarZ
            | ArchiveFormat::TarGzip
            | ArchiveFormat::TarBzip2
            | ArchiveFormat::TarLz
            | ArchiveFormat::TarXz
            | ArchiveFormat::TarLzma
            | ArchiveFormat::Z
            | ArchiveFormat::Gzip
            | ArchiveFormat::Bzip2
            | ArchiveFormat::Lz
            | ArchiveFormat::Xz
            | ArchiveFormat::Lzma
    )
}

/// Whether what the tool prints is discarded: in quiet mode, for the 7z
/// tool, which has no option for it.
pub open spec fn is_silenced(format: ArchiveFormat, quiet: bool) -> bool {
    quiet && matches!(format, ArchiveFormat::Tar7z | ArchiveFormat::P7z | ArchiveFormat::Zip)
}

/// The directory in which the tools are run when they write `output`: the
/// one that holds the output, if the path names one.
pub open spec fn archive_directory(output: Seq<char>) -> Option<Seq<char>> {
    match path_parent(output) {
        Some(directory) => if directory.len() > 0 {
            Some(directory)
        } else {
            None
        },
        None => None,
    }
}

/// The directory in which the tools are run when they write `output`.
pub fn directory_of(output: &str) -> (r: Option<String>)
    ensures
        opt_text(r) == archive_directory(output@),
{
    match parent(output) {
        Some(directory) => if directory.as_str().is_empty() {
            None
        } else {
            Some(directory)
        },
        None => None,
    }
}

/// The command whose clean exit shows that `tool` can be used.
pub open spec fn probe_argv(paths: &ExecutablePaths, tool: Tool) -> Seq<Seq<char>> {
    if tool == Tool::Unrar {
        seq![paths.path_of(tool), "-?"@]
    } else {
        seq![paths.path_of(tool), "-V"@]
    }
}

/// The command whose clean exit shows that `tool` can be used.
pub fn probe_command(paths: &ExecutablePaths, tool: Tool) -> (c: Command)
    ensures
        c@ == probe_argv(paths, tool),
{
    let mut c = Command::new(paths.path(tool));
    if matches!(tool, Tool::Unrar) {
        c.arg("-?");
    } else {
        c.arg("-V");
    }
    c
}

/// The candidate that stands for `tool` in archiving to `format`. The last
/// candidate of a chain is not probed. For a tar-wrapped format tar feeds
/// the tool through a pipe.
pub open spec fn archive_candidate(
    paths: &ExecutablePaths,
    request: &ArchiveRequest,
    format: ArchiveFormat,
    tool: Tool,
    last: bool,
    inputs: Seq<InputEntry>,
    members: Seq<Seq<char>>,
    target: Seq<char>,
    password: Seq<char>,
) -> CandidateView {
    let argv = archive_argv(paths, request, format, tool, inputs, members, target, password);
    CandidateView {
        tool,
        probe: if last {
            None
        } else {
            Some(probe_argv(paths, tool))
        },
        pipeline: if format.is_tar_wrapped() {
            PipelineView::Piped(tar_stream_argv(paths.path_of(Tool::Tar), members), argv)
        } else {
            PipelineView::Single(argv)
        },
    }
}

/// The candidates for archiving to `format`, most preferred first: one for
/// each tool of the format's chain.
pub open spec fn archive_candidates(
    paths: &ExecutablePaths,
    request: &ArchiveRequest,
    format: ArchiveFormat,
    inputs: Seq<InputEntry>,
    members: Seq<Seq<char>>,
    target: Seq<char>,
    password: Seq<char>,
) -> Seq<CandidateView> {
    let chain = archive_chain(format, request.threads, request.level);
    Seq::new(
        chain.len(),
        |i: int|
            archive_candidate(
                paths,
                request,
                format,
                chain[i],
                i == chain.len() - 1,
                inputs,
                members,
                target,
                password,
            ),
    )
}

/// The plan for archiving `inputs` to `output` in `format`, or the reason
/// why there is none.
///
/// The request is turned down for whatever `archive_problem` finds, and for
/// a path that cannot be taken apart where tar or the temporary file needs
/// it. Otherwise the plan holds the candidates of the format's chain. The
/// output file is connected to the tool's standard output where the tool
/// writes there, and it is what a failure removes. The tools run in the
/// directory that holds the output. A zip archive in volumes is written
/// whole to the temporary file and then split by zip.
pub open spec fn archive_plan(
    paths: &ExecutablePaths,
    request: &ArchiveRequest,
    format: ArchiveFormat,
    inputs: Seq<InputEntry>,
    output: Seq<char>,
    password: Seq<char>,
) -> Result<PlanView, Error> {
    if archive_problem(request, format, inputs) is Some {
        Err(archive_problem(request, format, inputs)->0)
    } else if needs_members(format) && tar_members(inputs) is None {
        Err(Error::PathError(PathProblem::Unnamed))
    } else if needs_temporary(request, format) && temporary_path(output) is None {
        Err(Error::PathError(PathProblem::Unnamed))
    } else {
        let members = if needs_members(format) {
            tar_members(inputs)->0
        } else {
            Seq::empty()
        };
        let target = if needs_temporary(request, format) {
            temporary_path(output)->0
        } else {
            output
        };
        Ok(
            PlanView {
                candidates: archive_candidates(
                    paths,
                    request,
                    format,
                    inputs,
                    members,
                    target,
                    password,
                ),
                stdout: if writes_to_stdout(format) {
                    Some(output)
                } else {
                    None
                },
                silent: is_silenced(format, request.quiet),
                directory: archive_directory(output),
                follow_up: if needs_temporary(request, format) {
                    Some(resplit_argv(paths.path_of(Tool::Zip), request, target, output, password))
                } else {
                    None
                },
                temporary: if needs_temporary(request, format) {
                    Some(target)
                } else {
                    None
                },
                output: Some(output),
            },
        )
    }
}

/// Plans the archiving of `inputs` to `output` in `format`. `password` is
/// the password to protect the archive with, empty for none.
pub fn handle_compression(
    paths: &ExecutablePaths,
    request: &ArchiveRequest,
    format: ArchiveFormat,
    inputs: &Vec<InputEntry>,
    output: &str,
    password: &str,
) -> (r: Result<Plan, Error>)
    ensures
        match r {
            Ok(plan) => archive_plan(paths, request, format, inputs@, output@, password@) == Ok::<
                PlanView,
                Error,
            >(plan@) && plan.well_formed(),
            Err(e) => archive_plan(paths, request, format, inputs@, output@, password@) == Err::<
                PlanView,
                Error,
            >(e),
        },
{
    match check_archive(request, format, inputs) {
        Err(e) => {
            return Err(e);
        },
        Ok(_) => {},
    }
    let wrapped = format.tar_wrapped();
    let with_members = wrapped || matches!(format, ArchiveFormat::Tar);
    let members: Vec<String> = if with_members {
        match tar_member_arguments(inputs) {
            Ok(members) => members,
            Err(e) => {
                return Err(e);
            },
        }
    } else {
        let empty: Vec<String> = Vec::new();
        assert(texts(empty@) =~= Seq::<Seq<char>>::empty());
        empty
    };
    let two_phases = matches!(format, ArchiveFormat::Zip) && request.split.is_some();
    let temporary: Option<String> = if two_phases {
        match temporary_beside(output) {
            Some(path) => Some(path),
            None => {
                return Err(Error::PathError(PathProblem::Unnamed));
            },
        }
    } else {
        None
    };
    let target: &str = match &temporary {
        Some(path) => path.as_str(),
        None => output,
    };
    let tools = archive_tools(format, request.threads, request.level);
    let mut candidates: Vec<ToolCandidate> = Vec::new();
    let mut i: usize = 0;
    while i < tools.len()
        invariant
            i <= tools@.len(),
            tools@ == archive_chain(format, request.threads, request.level),
            tools@.len() >= 1,
            wrapped == format.is_tar_wrapped(),
            candidates@.len() == i,
            forall|j: int|
                0 <= j < i ==> (#[trigger] candidates@[j])@ == archive_candidate(
                    paths,
                    request,
                    format,
                    tools@[j],
                    j == tools@.len() - 1,
                    inputs@,
                    texts(members@),
                    target@,
                    password@,
                ),
        decreases tools@.len() - i,
    {
        let tool = tools[i];
        let last = i + 1 == tools.len();
        let command = archive_command(
            paths,
            request,
            format,
            tool,
            inputs,
            &members,
            target,
            password,
        );
        let pipeline = if wrapped {
            Pipeline::Piped(tar_stream_command(paths.path(Tool::Tar), &members), command)
        } else {
            Pipeline::Single(command)
        };
        let probe = if last {
            None
        } else {
            Some(probe_command(paths, tool))
        };
        candidates.push(ToolCandidate { tool, probe, pipeline });
        i += 1;
    }
    let follow_up = if two_phases {
        Some(resplit_command(paths.path(Tool::Zip), request, target, output, password))
    } else {
        None
    };
    let stdout = if matches!(
        format,
        ArchiveFormat::TarZ
            | ArchiveFormat::TarGzip
            | ArchiveFormat::TarBzip2
            | ArchiveFormat::TarLz
            | ArchiveFormat::TarXz
            | ArchiveFormat::TarLzma
            | ArchiveFormat::Z
            | ArchiveFormat::Gzip
            | ArchiveFormat::Bzip2
            | ArchiveFormat::Lz
            | ArchiveFormat::Xz
            | ArchiveFormat::Lzma
    ) {
        Some(output.to_string())
    } else {
        None
    };
    let silent = request.quiet && matches!(
        format,
        ArchiveFormat::Tar7z | ArchiveFormat::P7z | ArchiveFormat::Zip
    );
    let plan = Plan {
        candidates,
        stdout,
        silent,
        directory: directory_of(output),
        follow_up,
        temporary,
        output: Some(output.to_string()),
    };
    assert(plan@.candidates =~= archive_candidates(
        paths,
        request,
        format,
        inputs@,
        texts(members@),
        target@,
        password@,
    ));
    Ok(plan)
}

} // verus!
