//! Requests: what the command line asks for, once read and checked.

use vstd::prelude::*;

use crate::cli::{CLIArgs, CLICommands};
use crate::error::{Error, PathProblem, UsageProblem};
use crate::tool::ExecutablePaths;

verus! {

/// How hard the tools are asked to compress.
#[derive(Debug, Clone, Copy, PartialEq, Eq, Structural, Hash)]
pub enum CompressionLevel {
    Default,
    Best,
    Fast,
}

/// The smallest volume size, in bytes, that an archive may be split into.
pub const MIN_SPLIT_SIZE: u128 = 65536;

/// A request to store files in an archive.
#[derive(Debug)]
pub struct ArchiveRequest {
    pub input_paths: Vec<String>,
    /// Where to write the archive; by default next to the working directory,
    /// named after the first input.
    pub output_path: Option<String>,
    /// `Some("")` asks for the password to be read interactively.
    pub password: Option<String>,
    /// The volume size in bytes.
    pub split: Option<u128>,
    /// The share of recovery data, in percent.
    pub recovery_record: Option<u8>,
    pub level: CompressionLevel,
    pub threads: usize,
    pub quiet: bool,
}

/// A request to unpack an archive.
#[derive(Debug)]
pub struct ExtractRequest {
    pub input_path: String,
    /// Where to unpack; by default the working directory.
    pub output_path: Option<String>,
    /// `Some("")` asks for the password to be read interactively.
    pub password: Option<String>,
    pub threads: usize,
    pub quiet: bool,
}

/// One request of either kind.
#[derive(Debug)]
pub enum Request {
    Archive(ArchiveRequest),
    Extract(ExtractRequest),
}

impl ArchiveRequest {
    /// The first thing wrong with the request's own values, if any. A split
    /// size below the minimum is reported before anything else.
    pub open spec fn problem(&self) -> Option<Error> {
        if self.split is Some && self.split->0 < MIN_SPLIT_SIZE {
            Some(Error::SplitSizeTooSmall)
        } else if self.input_paths@.len() == 0 {
            Some(Error::PathError(PathProblem::NoInput))
        } else if self.recovery_record is Some && !(1 <= self.recovery_record->0 <= 100) {
            Some(Error::Usage(UsageProblem::RecoveryRecordOutOfRange))
        } else if self.threads < 1 {
            Some(Error::Usage(UsageProblem::NoThreads))
        } else {
            None
        }
    }

    /// Whether the request's own values are in order: at least one input, at
    /// least one thread, a split size of at least the minimum and a recovery
    /// record from 1 to 100.
    pub open spec fn well_formed(&self) -> bool {
        &&& self.input_paths@.len() >= 1
        &&& self.threads >= 1
        &&& self.split is Some ==> self.split->0 >= MIN_SPLIT_SIZE
        &&& self.recovery_record is Some ==> 1 <= self.recovery_record->0 <= 100
    }

    /// Checks the request's own values.
    pub fn check(&self) -> (r: Result<(), Error>)
        ensures
            match r {
                Ok(_) => self.problem() is None,
                Err(e) => self.problem() == Some(e),
            },
            r is Ok <==> self.well_formed(),
    {
        if let Some(bytes) = self.split {
            if bytes < MIN_SPLIT_SIZE {
                return Err(Error::SplitSizeTooSmall);
            }
        }
        if self.input_paths.len() == 0 {
            return Err(Error::PathError(PathProblem::NoInput));
        }
        if let Some(percent) = self.recovery_record {
            if percent < 1 || percent > 100 {
                return Err(Error::Usage(UsageProblem::RecoveryRecordOutOfRange));
            }
        }
        if self.threads < 1 {
            return Err(Error::Usage(UsageProblem::NoThreads));
        }
        Ok(())
    }
}

impl ExtractRequest {
    /// The first thing wrong with the request's own values, if any.
    pub open spec fn problem(&self) -> Option<Error> {
        if self.threads < 1 {
            Some(Error::Usage(UsageProblem::NoThreads))
        } else {
            None
        }
    }

    /// Whether the request's own values are in order: at least one thread.
    pub open spec fn well_formed(&self) -> bool {
        self.threads >= 1
    }

    /// Checks the request's own values.
    pub fn check(&self) -> (r: Result<(), Error>)
        ensures
            match r {
                Ok(_) => self.problem() is None,
                Err(e) => self.problem() == Some(e),
            },
            r is Ok <==> self.well_formed(),
    {
        if self.threads < 1 {
            Err(Error::Usage(UsageProblem::NoThreads))
        } else {
            Ok(())
        }
    }
}

/// The compression level that the two flags ask for, unless they contradict
/// each other.
pub open spec fn level_of(best: bool, fastest: bool) -> Option<CompressionLevel> {
    if best && fastest {
        None
    } else if best {
        Some(CompressionLevel::Best)
    } else if fastest {
        Some(CompressionLevel::Fast)
    } else {
        Some(CompressionLevel::Default)
    }
}

/// The number of threads to let the tools use: one in single-thread mode,
/// else the number of processors, and never less than one.
pub open spec fn threads_of(single_thread: bool, cpus: usize) -> usize {
    if single_thread || cpus <= 1 {
        1
    } else {
        cpus
    }
}

/// The number of threads to let the tools use.
pub fn thread_count(single_thread: bool, cpus: usize) -> (r: usize)
    ensures
        r == threads_of(single_thread, cpus),
        r >= 1,
        single_thread ==> r == 1,
{
    if single_thread || cpus <= 1 {
        1
    } else {
        cpus
    }
}

/// The longest text, in characters, that is read as a split size. A longer
/// one could hold a number so large that multiplying it by its unit no
/// longer fits 128 bits.
pub const MAX_SPLIT_TEXT: usize = 17;

/// The number of bytes that `byte_unit::Byte::from_str` reads from `text`,
/// if it reads one.
pub uninterp spec fn parsed_byte_count(text: Seq<char>) -> Option<u128>;

/// The error of `byte_unit::Byte::from_str`, carried through without being
/// looked into.
#[verifier::external_type_specification]
#[verifier::external_body]
pub struct ExByteError(byte_unit::ByteError);

/// Calls `byte_unit::Byte::from_str` and takes the byte count out of its
/// answer. The contract only names that count; nothing is claimed about how
/// it is read from the text.
///
/// The text must be short. The outside function reads the number as a
/// float, turns it into an integer and, for the units from GB upward,
/// multiplies that integer by up to 10^15 or 2^50 without a check. A text
/// of at most 17 characters that names such a unit holds at most 16
/// digits, so the integer stays below 2 * 10^22 and the product below
/// 3 * 10^37, which fits 128 bits.
#[verifier::external_body]
fn parse_byte_count(text: &str) -> (r: Result<u128, byte_unit::ByteError>)
    requires
        text@.len() <= MAX_SPLIT_TEXT,
    ensures
        match r {
            Ok(bytes) => parsed_byte_count(text@) == Some(bytes),
            Err(_) => parsed_byte_count(text@) is None,
        },
{
    match byte_unit::Byte::from_str(text) {
        Ok(byte) => Ok(byte.get_bytes()),
        Err(error) => Err(error),
    }
}

/// Calls `num_cpus::get`. The answer depends on the machine, so nothing is
/// claimed about it.
#[verifier::external_body]
fn available_cpus() -> (n: usize) {
    num_cpus::get()
}

/// What becomes of a byte count that was read, or not, from the split option.
pub open spec fn split_size_verdict(parsed: Option<u128>) -> Result<u128, Error> {
    match parsed {
        None => Err(Error::Usage(UsageProblem::SplitSizeUnreadable)),
        Some(bytes) => if bytes < MIN_SPLIT_SIZE {
            Err(Error::SplitSizeTooSmall)
        } else {
            Ok(bytes)
        },
    }
}

/// Accepts a volume size that was read from the split option, or says why not.
pub fn check_split_size(parsed: Option<u128>) -> (r: Result<u128, Error>)
    ensures
        r == split_size_verdict(parsed),
{
    match parsed {
        None => Err(Error::Usage(UsageProblem::SplitSizeUnreadable)),
        Some(bytes) => if bytes < MIN_SPLIT_SIZE {
            Err(Error::SplitSizeTooSmall)
        } else {
            Ok(bytes)
        },
    }
}

/// The volume size that the split option asks for. A text of more than
/// `MAX_SPLIT_TEXT` characters is not read at all.
pub open spec fn split_of(split: Option<String>) -> Result<Option<u128>, Error> {
    match split {
        None => Ok(None),
        Some(text) => if text@.len() > MAX_SPLIT_TEXT {
            Err(Error::Usage(UsageProblem::SplitSizeUnreadable))
        } else {
            match split_size_verdict(parsed_byte_count(text@)) {
                Ok(bytes) => Ok(Some(bytes)),
                Err(e) => Err(e),
            }
        },
    }
}

/// Reads the split option.
pub fn read_split(split: &Option<String>) -> (r: Result<Option<u128>, Error>)
    ensures
        r == split_of(*split),
{
    match split {
        None => Ok(None),
        Some(text) => {
            if text.as_str().unicode_len() > MAX_SPLIT_TEXT {
                return Err(Error::Usage(UsageProblem::SplitSizeUnreadable));
            }
            let parsed = match parse_byte_count(text.as_str()) {
                Ok(bytes) => Some(bytes),
                Err(_) => None,
            };
            match check_split_size(parsed) {
                Ok(bytes) => Ok(Some(bytes)),
                Err(e) => Err(e),
            }
        },
    }
}

/// The request that a command line stands for on a machine with `cpus`
/// processors, with the tool paths it configures, or the first error in it.
/// For an archive the split size is judged first, then the inputs, the
/// compression flags and the recovery record.
pub open spec fn request_of(args: CLIArgs, cpus: usize) -> Result<(Request, ExecutablePaths), Error> {
    let threads = threads_of(args.single_thread, cpus);
    match args.command {
        CLICommands::X { input_path, output_path, output } => {
            if output_path is Some && output is Some {
                Err(Error::Usage(UsageProblem::ConflictingOutputs))
            } else {
                Ok(
                    (
                        Request::Extract(
                            ExtractRequest {
                                input_path,
                                output_path: if output_path is Some {
                                    output_path
                                } else {
                                    output
                                },
                                password: args.password,
                                threads,
                                quiet: args.quiet,
                            },
                        ),
                        args.executable_paths,
                    ),
                )
            }
        },
        CLICommands::A {
            input_paths,
            output_path,
            best_compression,
            fastest_compression,
            split,
            recovery_record,
        } => {
            match split_of(split) {
                Err(e) => Err(e),
                Ok(bytes) => {
                    if input_paths@.len() == 0 {
                        Err(Error::PathError(PathProblem::NoInput))
                    } else if level_of(best_compression, fastest_compression) is None {
                        Err(Error::Usage(UsageProblem::ConflictingLevels))
                    } else if recovery_record is Some && !(1 <= recovery_record->0 <= 100) {
                        Err(Error::Usage(UsageProblem::RecoveryRecordOutOfRange))
                    } else {
                        Ok(
                            (
                                Request::Archive(
                                    ArchiveRequest {
                                        input_paths,
                                        output_path,
                                        password: args.password,
                                        split: bytes,
                                        recovery_record,
                                        level: level_of(best_compression, fastest_compression)->0,
                                        threads,
                                        quiet: args.quiet,
                                    },
                                ),
                                args.executable_paths,
                            ),
                        )
                    }
                },
            }
        },
    }
}

impl Request {
    /// Turns a command line into a request, for a machine with `cpus`
    /// processors.
    pub fn from_cli(args: CLIArgs, cpus: usize) -> (r: Result<(Request, ExecutablePaths), Error>)
        ensures
            r == request_of(args, cpus),
            r matches Ok((Request::Archive(request), _)) ==> request.well_formed(),
            r matches Ok((Request::Extract(request), _)) ==> request.well_formed(),
    {
        let threads = thread_count(args.single_thread, cpus);
        match args.command {
            CLICommands::X { input_path, output_path, output } => {
                if output_path.is_some() && output.is_some() {
                    return Err(Error::Usage(UsageProblem::ConflictingOutputs));
                }
                let destination = if output_path.is_some() {
                    output_path
                } else {
                    output
                };
                Ok(
                    (
                        Request::Extract(
                            ExtractRequest {
                                input_path,
                                output_path: destination,
                                password: args.password,
                                threads,
                                quiet: args.quiet,
                            },
                        ),
                        args.executable_paths,
                    ),
                )
            },
            CLICommands::A {
                input_paths,
                output_path,
                best_compression,
                fastest_compression,
                split,
                recovery_record,
            } => {
                let bytes = match read_split(&split) {
                    Ok(bytes) => bytes,
                    Err(e) => {
                        return Err(e);
                    },
                };
                if input_paths.len() == 0 {
                    return Err(Error::PathError(PathProblem::NoInput));
                }
                if best_compression && fastest_compression {
                    return Err(Error::Usage(UsageProblem::ConflictingLevels));
                }
                let level = if best_compression {
                    CompressionLevel::Best
                } else if fastest_compression {
                    CompressionLevel::Fast
                } else {
                    CompressionLevel::Default
                };
                if let Some(percent) = recovery_record {
                    if percent < 1 || percent > 100 {
                        return Err(Error::Usage(UsageProblem::RecoveryRecordOutOfRange));
                    }
                }
                Ok(
                    (
                        Request::Archive(
                            ArchiveRequest {
                                input_paths,
                                output_path,
                                password: args.password,
                                split: bytes,
                                recovery_record,
                                level,
                                threads,
                                quiet: args.quiet,
                            },
                        ),
                        args.executable_paths,
                    ),
                )
            },
        }
    }

    /// Turns a command line into a request for this machine. The number of
    /// processors is asked of the machine, so the contract holds for the
    /// number that came back, whatever it was.
    pub fn parse(args: CLIArgs) -> (r: Result<(Request, ExecutablePaths), Error>)
        ensures
            exists|cpus: usize| r == request_of(args, cpus),
            args.single_thread ==> r == request_of(args, 1),
    {
        let cpus = available_cpus();
        Request::from_cli(args, cpus)
    }
}

} // verus!
