use xcompress::request::{
    check_split_size, read_split, thread_count, MAX_SPLIT_TEXT, MIN_SPLIT_SIZE,
};
use xcompress::{
    ArchiveRequest, CLIArgs, CLICommands, CompressionLevel, Error, ExecutablePaths, PathProblem,
    Request, UsageProblem,
};

fn archive_args(inputs: &[&str]) -> CLIArgs {
    CLIArgs {
        command: CLICommands::A {
            input_paths: inputs.iter().map(|s| s.to_string()).collect(),
            output_path: None,
            best_compression: false,
            fastest_compression: false,
            split: None,
            recovery_record: None,
        },
        quiet: false,
        single_thread: false,
        password: None,
        executable_paths: ExecutablePaths::default(),
    }
}

fn with_split(split: &str) -> CLIArgs {
    let mut args = archive_args(&["a.txt"]);
    if let CLICommands::A { split: slot, output_path, .. } = &mut args.command {
        *slot = Some(split.to_string());
        *output_path = Some("out.zip".to_string());
    }
    args
}

fn archive_of(args: CLIArgs, cpus: usize) -> ArchiveRequest {
    match Request::from_cli(args, cpus) {
        Ok((Request::Archive(request), _)) => request,
        other => panic!("not an archive request: {:?}", other),
    }
}

fn error_of(args: CLIArgs) -> Error {
    match Request::from_cli(args, 4) {
        Err(e) => e,
        Ok(other) => panic!("accepted: {:?}", other),
    }
}

#[test]
fn archive_request_carries_the_command_line() {
    let mut args = archive_args(&["a.txt", "b"]);
    args.quiet = true;
    args.password = Some("secret".to_string());
    if let CLICommands::A { output_path, recovery_record, best_compression, .. } = &mut args.command {
        *output_path = Some("out.rar".to_string());
        *recovery_record = Some(5);
        *best_compression = true;
    }
    let request = archive_of(args, 8);
    assert_eq!(request.input_paths, vec!["a.txt".to_string(), "b".to_string()]);
    assert_eq!(request.output_path, Some("out.rar".to_string()));
    assert_eq!(request.password, Some("secret".to_string()));
    assert_eq!(request.split, None);
    assert_eq!(request.recovery_record, Some(5));
    assert_eq!(request.level, CompressionLevel::Best);
    assert_eq!(request.threads, 8);
    assert!(request.quiet);
    assert_eq!(request.check(), Ok(()));
}

#[test]
fn tool_paths_come_back_with_the_request() {
    let mut args = archive_args(&["a.txt"]);
    args.executable_paths.tar_path = "/opt/bin/gtar".to_string();
    match Request::from_cli(args, 2) {
        Ok((_, paths)) => {
            assert_eq!(paths.tar_path, "/opt/bin/gtar");
            assert_eq!(paths.gzip_path, "gzip");
        }
        Err(e) => panic!("refused: {:?}", e),
    }
}

#[test]
fn compression_level_follows_the_flags() {
    let request = archive_of(archive_args(&["a"]), 1);
    assert_eq!(request.level, CompressionLevel::Default);
    let mut args = archive_args(&["a"]);
    if let CLICommands::A { fastest_compression, .. } = &mut args.command {
        *fastest_compression = true;
    }
    assert_eq!(archive_of(args, 1).level, CompressionLevel::Fast);
}

#[test]
fn contradicting_levels_are_rejected() {
    let mut args = archive_args(&["a"]);
    if let CLICommands::A { fastest_compression, best_compression, .. } = &mut args.command {
        *fastest_compression = true;
        *best_compression = true;
    }
    assert_eq!(error_of(args), Error::Usage(UsageProblem::ConflictingLevels));
}

#[test]
fn split_size_is_read_in_bytes() {
    assert_eq!(archive_of(with_split("100KiB"), 1).split, Some(102400));
    assert_eq!(archive_of(with_split("65536"), 1).split, Some(65536));
    assert_eq!(archive_of(with_split("64 KiB"), 1).split, Some(65536));
    assert_eq!(archive_of(with_split("1MB"), 1).split, Some(1000000));
    assert_eq!(archive_of(with_split("2 mib"), 1).split, Some(2097152));
}

#[test]
fn split_size_below_the_minimum_is_rejected() {
    assert_eq!(error_of(with_split("65535")), Error::SplitSizeTooSmall);
    assert_eq!(error_of(with_split("63KiB")), Error::SplitSizeTooSmall);
    assert_eq!(error_of(with_split("0")), Error::SplitSizeTooSmall);
    assert_eq!(error_of(with_split("1")), Error::SplitSizeTooSmall);
}

#[test]
fn too_small_split_is_reported_before_anything_else() {
    let mut args = with_split("1KB");
    if let CLICommands::A { input_paths, best_compression, fastest_compression, recovery_record, .. } =
        &mut args.command
    {
        input_paths.clear();
        *best_compression = true;
        *fastest_compression = true;
        *recovery_record = Some(0);
    }
    assert_eq!(error_of(args), Error::SplitSizeTooSmall);
}

#[test]
fn unreadable_split_size_is_rejected() {
    assert_eq!(error_of(with_split("big")), Error::Usage(UsageProblem::SplitSizeUnreadable));
    assert_eq!(error_of(with_split("")), Error::Usage(UsageProblem::SplitSizeUnreadable));
    assert_eq!(error_of(with_split("12 parsecs")), Error::Usage(UsageProblem::SplitSizeUnreadable));
}

#[test]
fn overlong_split_size_is_not_read() {
    assert_eq!(MAX_SPLIT_TEXT, 17);
    // A number that its unit would carry beyond 128 bits.
    assert_eq!(
        read_split(&Some("400000000000000000ZB".to_string())),
        Err(Error::Usage(UsageProblem::SplitSizeUnreadable))
    );
    assert_eq!(
        error_of(with_split("400000000000000000ZB")),
        Error::Usage(UsageProblem::SplitSizeUnreadable)
    );
    for text in [
        "999999999999999999999999999999ZiB",
        "340282366920938463463374607431768211456",
        "000000000000065536",
        "               65536",
        "1000000000000000PB",
    ] {
        assert!(text.chars().count() > 17);
        assert_eq!(
            read_split(&Some(text.to_string())),
            Err(Error::Usage(UsageProblem::SplitSizeUnreadable)),
            "{:?}",
            text
        );
    }
}

#[test]
fn longest_split_sizes_are_read() {
    // Seventeen characters, with the units that multiply most.
    // The number is read as a float, so its last digits are rounded; the
    // product neither wraps nor saturates.
    match read_split(&Some("9999999999999999Z".to_string())) {
        Ok(Some(bytes)) => {
            assert!(bytes >= 9_999_999_999_999_000u128 * 1_000_000_000_000_000_000_000);
            assert!(bytes <= 10_000_000_000_000_001u128 * 1_000_000_000_000_000_000_000);
        }
        other => panic!("not read: {:?}", other),
    }
    assert_eq!(
        read_split(&Some("1000000000000000Z".to_string())),
        Ok(Some(1_000_000_000_000_000u128 * 1_000_000_000_000_000_000_000))
    );
    assert_eq!(read_split(&Some("100000000000000Zi".to_string())), Ok(Some(100000000000000u128 << 70)));
    assert_eq!(read_split(&Some("1000000000000ZiB".to_string())), Ok(Some(1000000000000u128 << 70)));
    assert_eq!(read_split(&Some("10000000000000000".to_string())), Ok(Some(10000000000000000)));
    assert_eq!(read_split(&Some("00000000000065536".to_string())), Ok(Some(65536)));
    assert_eq!(read_split(&Some("00000000000065535".to_string())), Err(Error::SplitSizeTooSmall));
}

#[test]
fn split_size_verdicts() {
    assert_eq!(MIN_SPLIT_SIZE, 65536);
    assert_eq!(check_split_size(Some(65536)), Ok(65536));
    assert_eq!(check_split_size(Some(65535)), Err(Error::SplitSizeTooSmall));
    assert_eq!(check_split_size(Some(u128::MAX)), Ok(u128::MAX));
    assert_eq!(check_split_size(None), Err(Error::Usage(UsageProblem::SplitSizeUnreadable)));
    assert_eq!(read_split(&None), Ok(None));
    assert_eq!(read_split(&Some("100KiB".to_string())), Ok(Some(102400)));
}

#[test]
fn missing_inputs_are_rejected() {
    assert_eq!(error_of(archive_args(&[])), Error::PathError(PathProblem::NoInput));
}

#[test]
fn recovery_record_must_be_a_percentage() {
    for bad in [0u8, 101, 255] {
        let mut args = archive_args(&["a"]);
        if let CLICommands::A { recovery_record, .. } = &mut args.command {
            *recovery_record = Some(bad);
        }
        assert_eq!(error_of(args), Error::Usage(UsageProblem::RecoveryRecordOutOfRange));
    }
    for good in [1u8, 50, 100] {
        let mut args = archive_args(&["a"]);
        if let CLICommands::A { recovery_record, .. } = &mut args.command {
            *recovery_record = Some(good);
        }
        assert_eq!(archive_of(args, 1).recovery_record, Some(good));
    }
}

#[test]
fn request_check_finds_the_first_problem() {
    let mut request = archive_of(archive_args(&["a"]), 1);
    request.recovery_record = Some(0);
    assert_eq!(request.check(), Err(Error::Usage(UsageProblem::RecoveryRecordOutOfRange)));
    request.input_paths.clear();
    assert_eq!(request.check(), Err(Error::PathError(PathProblem::NoInput)));
    request.split = Some(1024);
    assert_eq!(request.check(), Err(Error::SplitSizeTooSmall));
}

#[test]
fn requests_need_a_thread() {
    let mut request = archive_of(archive_args(&["a"]), 1);
    request.threads = 0;
    assert_eq!(request.check(), Err(Error::Usage(UsageProblem::NoThreads)));
    let unpack = xcompress::ExtractRequest {
        input_path: "a.zip".to_string(),
        output_path: None,
        password: None,
        threads: 0,
        quiet: false,
    };
    assert_eq!(unpack.check(), Err(Error::Usage(UsageProblem::NoThreads)));
    assert_eq!(
        xcompress::decompression::resolve_extract(
            &unpack,
            &xcompress::InputEntry { path: "a.zip".to_string(), is_dir: false }
        ),
        Err(Error::Usage(UsageProblem::NoThreads))
    );
    assert_eq!(
        xcompress::compression::resolve_archive(
            &request,
            &vec![xcompress::InputEntry { path: "/a".to_string(), is_dir: false }],
            "o.zip"
        ),
        Err(Error::Usage(UsageProblem::NoThreads))
    );
}

#[test]
fn thread_counts() {
    assert_eq!(thread_count(false, 8), 8);
    assert_eq!(thread_count(true, 8), 1);
    assert_eq!(thread_count(false, 1), 1);
    assert_eq!(thread_count(false, 0), 1);
    assert_eq!(thread_count(true, 0), 1);
}

#[test]
fn single_thread_mode_asks_for_one_thread() {
    let mut args = archive_args(&["a"]);
    args.single_thread = true;
    assert_eq!(archive_of(args, 16).threads, 1);
}

#[test]
fn parse_asks_the_machine_for_its_processors() {
    let request = match Request::parse(archive_args(&["a"])) {
        Ok((Request::Archive(request), _)) => request,
        other => panic!("not an archive request: {:?}", other),
    };
    assert!(request.threads >= 1);
    let mut args = archive_args(&["a"]);
    args.single_thread = true;
    match Request::parse(args) {
        Ok((Request::Archive(request), _)) => assert_eq!(request.threads, 1),
        other => panic!("not an archive request: {:?}", other),
    }
}

fn extract_args(output_path: Option<&str>, output: Option<&str>) -> CLIArgs {
    CLIArgs {
        command: CLICommands::X {
            input_path: "a.rar".to_string(),
            output_path: output_path.map(|s| s.to_string()),
            output: output.map(|s| s.to_string()),
        },
        quiet: true,
        single_thread: false,
        password: Some(String::new()),
        executable_paths: ExecutablePaths::default(),
    }
}

#[test]
fn extract_request_carries_the_command_line() {
    for (args, expected) in [
        (extract_args(None, None), None),
        (extract_args(Some("dir"), None), Some("dir".to_string())),
        (extract_args(None, Some("other")), Some("other".to_string())),
    ] {
        match Request::from_cli(args, 3) {
            Ok((Request::Extract(request), _)) => {
                assert_eq!(request.input_path, "a.rar");
                assert_eq!(request.output_path, expected);
                assert_eq!(request.password, Some(String::new()));
                assert_eq!(request.threads, 3);
                assert!(request.quiet);
            }
            other => panic!("not an extract request: {:?}", other),
        }
    }
}

#[test]
fn two_destinations_are_rejected() {
    assert_eq!(
        error_of(extract_args(Some("dir"), Some("other"))),
        Error::Usage(UsageProblem::ConflictingOutputs)
    );
}

#[test]
fn default_tool_paths() {
    let paths = ExecutablePaths::default();
    assert_eq!(paths.compress_path, "compress");
    assert_eq!(paths.zip_path, "zip");
    assert_eq!(paths.unzip_path, "unzip");
    assert_eq!(paths.gzip_path, "gzip");
    assert_eq!(paths.gnuzip_path, "gunzip");
    assert_eq!(paths.pigz_path, "pigz");
    assert_eq!(paths.bzip2_path, "bzip2");
    assert_eq!(paths.bunzip2_path, "bunzip2");
    assert_eq!(paths.lbzip2_path, "lbzip2");
    assert_eq!(paths.pbzip2_path, "pbzip2");
    assert_eq!(paths.lzip_path, "lzip");
    assert_eq!(paths.lunzip_path, "lunzip");
    assert_eq!(paths.plzip_path, "plzip");
    assert_eq!(paths.xz_path, "xz");
    assert_eq!(paths.unxz_path, "unxz");
    assert_eq!(paths.pxz_path, "pxz");
    assert_eq!(paths.lzma_path, "lzma");
    assert_eq!(paths.unlzma_path, "unlzma");
    assert_eq!(paths.p7z_path, "7z");
    assert_eq!(paths.tar_path, "tar");
    assert_eq!(paths.rar_path, "rar");
    assert_eq!(paths.unrar_path, "unrar");
    assert_eq!(paths.zstd_path, "zstd");
    assert_eq!(paths.unzstd_path, "unzstd");
    assert_eq!(paths.pzstd_path, "pzstd");
}
