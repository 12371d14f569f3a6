//! Why a request is turned down, or how a tool let it down.

use vstd::prelude::*;

use crate::archive_format::ArchiveFormat;

verus! {

/// The options that only some formats support.
#[derive(Debug, Clone, Copy, PartialEq, Eq, Structural, Hash)]
pub enum OptionName {
    Password,
    Split,
    RecoveryRecord,
}

/// What can be wrong with a path of the request.
#[derive(Debug, Clone, Copy, PartialEq, Eq, Structural, Hash)]
pub enum PathProblem {
    /// No input path was given.
    NoInput,
    /// An input path does not lead to an existing file or directory.
    InputMissing,
    /// A path has no parent directory or no final component to name it by.
    Unnamed,
    /// A file is to be written where a directory stands.
    IsDirectory,
    /// A directory is needed where something else stands.
    NotDirectory,
    /// The output location could not be made ready.
    NotPrepared,
}

/// What can be wrong with the way the options are combined or written.
#[derive(Debug, Clone, Copy, PartialEq, Eq, Structural, Hash)]
pub enum UsageProblem {
    /// Best and fastest compression were both asked for.
    ConflictingLevels,
    /// The destination was given twice.
    ConflictingOutputs,
    /// The recovery record is not a percentage from 1 to 100.
    RecoveryRecordOutOfRange,
    /// The split size is not a byte count that can be read.
    SplitSizeUnreadable,
    /// A password was to be read interactively and none could be read.
    PasswordUnavailable,
    /// The tools are allowed no thread at all.
    NoThreads,
}

/// Every way in which an operation can fail.
#[derive(Debug, Clone, Copy, PartialEq, Eq, Structural, Hash)]
pub enum Error {
    UnknownFormat,
    IncompatibleOption(OptionName),
    PathError(PathProblem),
    SplitSizeTooSmall,
    ToolSpawnFailure,
    ToolNonZeroExit(i32),
    ToolKilledBySignal,
    MultiInputSingleFileFormat(ArchiveFormat),
    Usage(UsageProblem),
}

/// The file name extension to use instead of that of a single-file format
/// when several files are to be stored.
pub open spec fn tar_extension(format: ArchiveFormat) -> Seq<char> {
    match format {
        ArchiveFormat::Z => ".tar.Z"@,
        ArchiveFormat::Gzip => ".tar.gz"@,
        ArchiveFormat::Bzip2 => ".tar.bz2"@,
        ArchiveFormat::Lz => ".tar.lz"@,
        ArchiveFormat::Xz => ".tar.xz"@,
        ArchiveFormat::Lzma => ".tar.lzma"@,
        ArchiveFormat::Zstd => ".tar.zst"@,
        _ => ".tar"@,
    }
}

impl Error {
    /// Whether the error is found before anything is run or written.
    pub open spec fn is_validation(self) -> bool {
        !matches!(
            self,
            Error::ToolSpawnFailure | Error::ToolNonZeroExit(_) | Error::ToolKilledBySignal
        )
    }

    /// The one-line diagnostic of the error.
    pub open spec fn message_text(self) -> Seq<char> {
        match self {
            Error::UnknownFormat => "Unknown archive format."@,
            Error::IncompatibleOption(OptionName::Password) =>
                "`password` only supports 7Z, ZIP and RAR."@,
            Error::IncompatibleOption(OptionName::Split) => "`split` only supports 7Z, ZIP and RAR."@,
            Error::IncompatibleOption(OptionName::RecoveryRecord) =>
                "`recovery-record` only supports RAR."@,
            Error::PathError(PathProblem::NoInput) => "At least one input path is needed."@,
            Error::PathError(PathProblem::InputMissing) => "An input path does not exist."@,
            Error::PathError(PathProblem::Unnamed) =>
                "A path has no parent directory or no file name."@,
            Error::PathError(PathProblem::IsDirectory) => "The output path is a directory."@,
            Error::PathError(PathProblem::NotDirectory) => "The output path is not a directory."@,
            Error::PathError(PathProblem::NotPrepared) => "The output path cannot be prepared."@,
            Error::SplitSizeTooSmall => "The split size is too small."@,
            Error::ToolSpawnFailure => "The tool cannot be started."@,
            Error::ToolNonZeroExit(_) => "The tool reported a failure."@,
            Error::ToolKilledBySignal => "The tool was terminated abnormally."@,
            Error::MultiInputSingleFileFormat(format) => "Obviously, you should use "@
                + tar_extension(format)
                + " for filename extension to support multiple files."@,
            Error::Usage(UsageProblem::ConflictingLevels) =>
                "Best and fastest compression cannot be combined."@,
            Error::Usage(UsageProblem::ConflictingOutputs) =>
                "The output path is given twice."@,
            Error::Usage(UsageProblem::RecoveryRecordOutOfRange) =>
                "The recovery record must be between 1 and 100."@,
            Error::Usage(UsageProblem::SplitSizeUnreadable) => "The split size cannot be read."@,
            Error::Usage(UsageProblem::PasswordUnavailable) => "Stdin is closed."@,
            Error::Usage(UsageProblem::NoThreads) => "At least one thread is needed."@,
        }
    }

    /// The diagnostic of the error when it was found at the place `path`: an
    /// error about what stands at a place names the place, in quotes.
    pub open spec fn message_text_at(self, path: Seq<char>) -> Seq<char> {
        match self {
            Error::PathError(PathProblem::IsDirectory) => "\""@ + path + "\" is a directory."@,
            Error::PathError(PathProblem::NotDirectory) => "\""@ + path
                + "\" is not a directory."@,
            _ => self.message_text(),
        }
    }

    /// Tells whether the error is found before anything is run or written.
    pub fn validation(&self) -> (r: bool)
        ensures
            r == self.is_validation(),
    {
        !matches!(
            self,
            Error::ToolSpawnFailure | Error::ToolNonZeroExit(_) | Error::ToolKilledBySignal
        )
    }

    /// The one-line diagnostic of the error.
    pub fn message(&self) -> (r: String)
        ensures
            r@ == self.message_text(),
    {
        match self {
            Error::UnknownFormat => "Unknown archive format.".to_string(),
            Error::IncompatibleOption(OptionName::Password) =>
                "`password` only supports 7Z, ZIP and RAR.".to_string(),
            Error::IncompatibleOption(OptionName::Split) =>
                "`split` only supports 7Z, ZIP and RAR.".to_string(),
            Error::IncompatibleOption(OptionName::RecoveryRecord) =>
                "`recovery-record` only supports RAR.".to_string(),
            Error::PathError(PathProblem::NoInput) => "At least one input path is needed.".to_string(),
            Error::PathError(PathProblem::InputMissing) => "An input path does not exist.".to_string(),
            Error::PathError(PathProblem::Unnamed) =>
                "A path has no parent directory or no file name.".to_string(),
            Error::PathError(PathProblem::IsDirectory) => "The output path is a directory.".to_string(),
            Error::PathError(PathProblem::NotDirectory) =>
                "The output path is not a directory.".to_string(),
            Error::PathError(PathProblem::NotPrepared) =>
                "The output path cannot be prepared.".to_string(),
            Error::SplitSizeTooSmall => "The split size is too small.".to_string(),
            Error::ToolSpawnFailure => "The tool cannot be started.".to_string(),
            Error::ToolNonZeroExit(_) => "The tool reported a failure.".to_string(),
            Error::ToolKilledBySignal => "The tool was terminated abnormally.".to_string(),
            Error::MultiInputSingleFileFormat(format) => {
                let extension = match format {
                    ArchiveFormat::Z => ".tar.Z",
                    ArchiveFormat::Gzip => ".tar.gz",
                    ArchiveFormat::Bzip2 => ".tar.bz2",
                    ArchiveFormat::Lz => ".tar.lz",
                    ArchiveFormat::Xz => ".tar.xz",
                    ArchiveFormat::Lzma => ".tar.lzma",
                    ArchiveFormat::Zstd => ".tar.zst",
                    _ => ".tar",
                };
                "Obviously, you should use ".to_string().concat(extension).concat(
                    " for filename extension to support multiple files.",
                )
            },
            Error::Usage(UsageProblem::ConflictingLevels) =>
                "Best and fastest compression cannot be combined.".to_string(),
            Error::Usage(UsageProblem::ConflictingOutputs) =>
                "The output path is given twice.".to_string(),
            Error::Usage(UsageProblem::RecoveryRecordOutOfRange) =>
                "The recovery record must be between 1 and 100.".to_string(),
            Error::Usage(UsageProblem::SplitSizeUnreadable) =>
                "The split size cannot be read.".to_string(),
            Error::Usage(UsageProblem::PasswordUnavailable) => "Stdin is closed.".to_string(),
            Error::Usage(UsageProblem::NoThreads) => "At least one thread is needed.".to_string(),
        }
    }

    /// The one-line diagnostic of the error when it was found at the place
    /// `path`.
    pub fn message_at(&self, path: &str) -> (r: String)
        ensures
            r@ == self.message_text_at(path@),
    {
        match self {
            Error::PathError(PathProblem::IsDirectory) => "\"".to_string().concat(path).concat(
                "\" is a directory.",
            ),
            Error::PathError(PathProblem::NotDirectory) => "\"".to_string().concat(path).concat(
                "\" is not a directory.",
            ),
            _ => self.message(),
        }
    }
}

} // verus!
