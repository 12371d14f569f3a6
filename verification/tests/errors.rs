use xcompress::{ArchiveFormat, Error, OptionName, PathProblem, UsageProblem};

#[test]
fn messages_of_validation_errors() {
    assert_eq!(Error::UnknownFormat.message(), "Unknown archive format.");
    assert_eq!(
        Error::IncompatibleOption(OptionName::Password).message(),
        "`password` only supports 7Z, ZIP and RAR."
    );
    assert_eq!(
        Error::IncompatibleOption(OptionName::Split).message(),
        "`split` only supports 7Z, ZIP and RAR."
    );
    assert_eq!(
        Error::IncompatibleOption(OptionName::RecoveryRecord).message(),
        "`recovery-record` only supports RAR."
    );
    assert_eq!(Error::SplitSizeTooSmall.message(), "The split size is too small.");
    assert_eq!(Error::Usage(UsageProblem::PasswordUnavailable).message(), "Stdin is closed.");
}

#[test]
fn message_names_the_extension_to_use() {
    for (format, extension) in [
        (ArchiveFormat::Z, ".tar.Z"),
        (ArchiveFormat::Gzip, ".tar.gz"),
        (ArchiveFormat::Bzip2, ".tar.bz2"),
        (ArchiveFormat::Lz, ".tar.lz"),
        (ArchiveFormat::Xz, ".tar.xz"),
        (ArchiveFormat::Lzma, ".tar.lzma"),
        (ArchiveFormat::Zstd, ".tar.zst"),
    ] {
        assert_eq!(
            Error::MultiInputSingleFileFormat(format).message(),
            format!(
                "Obviously, you should use {} for filename extension to support multiple files.",
                extension
            )
        );
    }
}

#[test]
fn every_error_has_a_one_line_message() {
    let all = [
        Error::UnknownFormat,
        Error::IncompatibleOption(OptionName::Password),
        Error::IncompatibleOption(OptionName::Split),
        Error::IncompatibleOption(OptionName::RecoveryRecord),
        Error::PathError(PathProblem::NoInput),
        Error::PathError(PathProblem::InputMissing),
        Error::PathError(PathProblem::Unnamed),
        Error::PathError(PathProblem::IsDirectory),
        Error::PathError(PathProblem::NotDirectory),
        Error::PathError(PathProblem::NotPrepared),
        Error::SplitSizeTooSmall,
        Error::ToolSpawnFailure,
        Error::ToolNonZeroExit(2),
        Error::ToolKilledBySignal,
        Error::MultiInputSingleFileFormat(ArchiveFormat::Gzip),
        Error::Usage(UsageProblem::ConflictingLevels),
        Error::Usage(UsageProblem::ConflictingOutputs),
        Error::Usage(UsageProblem::RecoveryRecordOutOfRange),
        Error::Usage(UsageProblem::SplitSizeUnreadable),
        Error::Usage(UsageProblem::PasswordUnavailable),
        Error::Usage(UsageProblem::NoThreads),
    ];
    for error in all {
        let message = error.message();
        assert!(!message.is_empty());
        assert!(!message.contains('\n'));
    }
}

#[test]
fn tool_failures_are_no_validation_errors() {
    assert!(!Error::ToolSpawnFailure.validation());
    assert!(!Error::ToolNonZeroExit(1).validation());
    assert!(!Error::ToolKilledBySignal.validation());
    assert!(Error::UnknownFormat.validation());
    assert!(Error::SplitSizeTooSmall.validation());
    assert!(Error::PathError(PathProblem::IsDirectory).validation());
    assert!(Error::MultiInputSingleFileFormat(ArchiveFormat::Xz).validation());
    assert!(Error::Usage(UsageProblem::ConflictingLevels).validation());
}

#[test]
fn errors_about_a_place_name_it() {
    assert_eq!(
        Error::PathError(PathProblem::IsDirectory).message_at("/work/out.zip"),
        "\"/work/out.zip\" is a directory."
    );
    assert_eq!(
        Error::PathError(PathProblem::NotDirectory).message_at("/work/out"),
        "\"/work/out\" is not a directory."
    );
    assert_eq!(Error::UnknownFormat.message_at("/work/out"), "Unknown archive format.");
    assert_eq!(Error::SplitSizeTooSmall.message_at(""), "The split size is too small.");
    assert_eq!(Error::PathError(PathProblem::IsDirectory).message_at(""), "\"\" is a directory.");
}
