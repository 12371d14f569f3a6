use xcompress::compression::{
    archive_target, archive_tools, check_archive, directory_of, handle_compression,
    resolve_archive, tar_member_arguments, temporary_beside,
};
use xcompress::{
    ArchiveFormat, ArchiveRequest, Command, CompressionLevel, Error, ExecutablePaths, InputEntry,
    OptionName, PathProblem, Pipeline, Plan, Tool,
};

fn request(threads: usize) -> ArchiveRequest {
    ArchiveRequest {
        input_paths: vec!["a.txt".to_string()],
        output_path: None,
        password: None,
        split: None,
        recovery_record: None,
        level: CompressionLevel::Default,
        threads,
        quiet: false,
    }
}

fn file(path: &str) -> InputEntry {
    InputEntry { path: path.to_string(), is_dir: false }
}

fn directory(path: &str) -> InputEntry {
    InputEntry { path: path.to_string(), is_dir: true }
}

fn argv(command: &Command) -> Vec<&str> {
    command.argv.iter().map(|s| s.as_str()).collect()
}

fn single(pipeline: &Pipeline) -> Vec<&str> {
    match pipeline {
        Pipeline::Single(command) => argv(command),
        Pipeline::Piped(..) => panic!("two processes where one is expected"),
    }
}

fn piped(pipeline: &Pipeline) -> (Vec<&str>, Vec<&str>) {
    match pipeline {
        Pipeline::Piped(first, second) => (argv(first), argv(second)),
        Pipeline::Single(..) => panic!("one process where two are expected"),
    }
}

fn probe(plan: &Plan, i: usize) -> Option<Vec<&str>> {
    plan.candidates[i].probe.as_ref().map(argv)
}

fn tools(plan: &Plan) -> Vec<Tool> {
    plan.candidates.iter().map(|c| c.tool).collect()
}

fn plan(request: &ArchiveRequest, format: ArchiveFormat, inputs: &[InputEntry], output: &str) -> Plan {
    let inputs: Vec<InputEntry> =
        inputs.iter().map(|e| InputEntry { path: e.path.clone(), is_dir: e.is_dir }).collect();
    let password = request.password.clone().unwrap_or_default();
    match handle_compression(&ExecutablePaths::default(), request, format, &inputs, output, &password) {
        Ok(plan) => plan,
        Err(e) => panic!("refused: {:?}", e),
    }
}

fn refusal(request: &ArchiveRequest, format: ArchiveFormat, inputs: &[InputEntry], output: &str) -> Error {
    let inputs: Vec<InputEntry> =
        inputs.iter().map(|e| InputEntry { path: e.path.clone(), is_dir: e.is_dir }).collect();
    match handle_compression(&ExecutablePaths::default(), request, format, &inputs, output, "") {
        Ok(plan) => panic!("accepted: {:?}", plan),
        Err(e) => e,
    }
}

#[test]
fn tar_gz_with_four_threads_prefers_pigz() {
    let plan = plan(&request(4), ArchiveFormat::TarGzip, &[file("/work/a.txt")], "/work/out.tar.gz");
    assert_eq!(tools(&plan), vec![Tool::Pigz, Tool::Gzip]);
    assert_eq!(probe(&plan, 0), Some(vec!["pigz", "-V"]));
    let (tar, pigz) = piped(&plan.candidates[0].pipeline);
    assert_eq!(tar, vec!["tar", "-c", "-f", "-", "-C", "/work", "a.txt"]);
    assert_eq!(pigz, vec!["pigz", "-c", "-p", "4"]);
    assert_eq!(probe(&plan, 1), None);
    let (tar, gzip) = piped(&plan.candidates[1].pipeline);
    assert_eq!(tar, vec!["tar", "-c", "-f", "-", "-C", "/work", "a.txt"]);
    assert_eq!(gzip, vec!["gzip", "-c", "-"]);
    assert_eq!(plan.stdout, Some("/work/out.tar.gz".to_string()));
    assert_eq!(plan.output, Some("/work/out.tar.gz".to_string()));
    assert_eq!(plan.directory, Some("/work".to_string()));
    assert_eq!(plan.temporary, None);
    assert!(plan.follow_up.is_none());
    assert!(!plan.silent);
}

#[test]
fn zip_in_volumes_is_built_whole_and_then_split() {
    let mut request = request(2);
    request.split = Some(102400);
    let plan = plan(&request, ArchiveFormat::Zip, &[file("/work/a.txt")], "/work/out.zip");
    assert_eq!(tools(&plan), vec![Tool::P7z]);
    assert_eq!(probe(&plan, 0), None);
    assert_eq!(
        single(&plan.candidates[0].pipeline),
        vec!["7z", "a", "-tzip", "-aoa", "-mmt2", "/work/out.tmp.zip", "/work/a.txt"]
    );
    assert_eq!(
        plan.follow_up.as_ref().map(argv),
        Some(vec!["zip", "-s", "100k", "/work/out.tmp.zip", "--out", "/work/out.zip"])
    );
    assert_eq!(plan.temporary, Some("/work/out.tmp.zip".to_string()));
    assert_eq!(plan.output, Some("/work/out.zip".to_string()));
    assert_eq!(plan.stdout, None);
}

#[test]
fn zip_split_carries_level_password_and_quiet() {
    let mut request = request(1);
    request.split = Some(1000000);
    request.level = CompressionLevel::Best;
    request.password = Some("pw".to_string());
    request.quiet = true;
    let plan = plan(&request, ArchiveFormat::Zip, &[file("/w/a"), directory("/w/b")], "/w/o.zip");
    assert_eq!(
        single(&plan.candidates[0].pipeline),
        vec!["7z", "a", "-tzip", "-aoa", "-mmt1", "-mx", "-ppw", "/w/o.tmp.zip", "/w/a", "/w/b"]
    );
    assert_eq!(
        plan.follow_up.as_ref().map(argv),
        Some(vec![
            "zip", "-s", "977k", "-9", "--password", "pw", "-q", "/w/o.tmp.zip", "--out", "/w/o.zip"
        ])
    );
    assert!(plan.silent);
    request.level = CompressionLevel::Fast;
    let plan = plan_fast(&request);
    assert_eq!(
        plan.follow_up.as_ref().map(argv),
        Some(vec![
            "zip", "-s", "977k", "-0", "--password", "pw", "-q", "/w/o.tmp.zip", "--out", "/w/o.zip"
        ])
    );
}

fn plan_fast(request: &ArchiveRequest) -> Plan {
    plan(request, ArchiveFormat::Zip, &[file("/w/a"), directory("/w/b")], "/w/o.zip")
}

#[test]
fn zip_without_split_is_written_directly() {
    let mut request = request(3);
    request.level = CompressionLevel::Fast;
    let plan = plan(&request, ArchiveFormat::Zip, &[file("/w/a")], "/w/o.zip");
    assert_eq!(
        single(&plan.candidates[0].pipeline),
        vec!["7z", "a", "-tzip", "-aoa", "-mmt3", "-mx=0", "/w/o.zip", "/w/a"]
    );
    assert!(plan.follow_up.is_none());
    assert_eq!(plan.temporary, None);
    assert!(!plan.silent);
}

#[test]
fn several_files_do_not_fit_a_single_file_format() {
    let inputs = [file("/w/a.txt"), file("/w/b.txt")];
    let e = refusal(&request(1), ArchiveFormat::Gzip, &inputs, "/w/out.gz");
    assert_eq!(e, Error::MultiInputSingleFileFormat(ArchiveFormat::Gzip));
    assert_eq!(
        e.message(),
        "Obviously, you should use .tar.gz for filename extension to support multiple files."
    );
}

#[test]
fn a_directory_does_not_fit_a_single_file_format() {
    for format in [
        ArchiveFormat::Z,
        ArchiveFormat::Gzip,
        ArchiveFormat::Bzip2,
        ArchiveFormat::Lz,
        ArchiveFormat::Xz,
        ArchiveFormat::Lzma,
        ArchiveFormat::Zstd,
    ] {
        assert_eq!(
            refusal(&request(1), format, &[directory("/w/d")], "/w/out"),
            Error::MultiInputSingleFileFormat(format)
        );
    }
    // An archive takes it.
    plan(&request(1), ArchiveFormat::TarGzip, &[directory("/w/d")], "/w/out.tar.gz");
    plan(&request(1), ArchiveFormat::Zip, &[directory("/w/d")], "/w/out.zip");
}

#[test]
fn options_need_a_format_that_supports_them() {
    let inputs = [file("/w/a")];
    for format in [ArchiveFormat::Tar, ArchiveFormat::TarGzip, ArchiveFormat::Gzip, ArchiveFormat::TarZstd] {
        let mut with_password = request(1);
        with_password.password = Some("pw".to_string());
        assert_eq!(
            refusal(&with_password, format, &inputs, "/w/o"),
            Error::IncompatibleOption(OptionName::Password)
        );
        let mut with_prompt = request(1);
        with_prompt.password = Some(String::new());
        assert_eq!(
            refusal(&with_prompt, format, &inputs, "/w/o"),
            Error::IncompatibleOption(OptionName::Password)
        );
        let mut with_split = request(1);
        with_split.split = Some(65536);
        assert_eq!(
            refusal(&with_split, format, &inputs, "/w/o"),
            Error::IncompatibleOption(OptionName::Split)
        );
    }
    for format in [ArchiveFormat::Zip, ArchiveFormat::P7z, ArchiveFormat::Tar7z, ArchiveFormat::Tar] {
        let mut with_record = request(1);
        with_record.recovery_record = Some(3);
        assert_eq!(
            refusal(&with_record, format, &inputs, "/w/o"),
            Error::IncompatibleOption(OptionName::RecoveryRecord)
        );
    }
}

#[test]
fn too_small_split_is_rejected_whatever_the_format() {
    let inputs = [file("/w/a")];
    for format in [ArchiveFormat::Zip, ArchiveFormat::Rar, ArchiveFormat::Gzip, ArchiveFormat::Tar] {
        let mut request = request(1);
        request.split = Some(65535);
        request.password = Some("pw".to_string());
        request.recovery_record = Some(3);
        assert_eq!(refusal(&request, format, &inputs, "/w/o"), Error::SplitSizeTooSmall);
        assert_eq!(check_archive(&request, format, &vec![file("/w/a")]), Err(Error::SplitSizeTooSmall));
    }
    let mut request = request(1);
    request.split = Some(0);
    assert_eq!(resolve_archive(&request, &vec![file("/w/a")], "nothing.txt"), Err(Error::SplitSizeTooSmall));
}

#[test]
fn planning_needs_an_input() {
    assert_eq!(
        refusal(&request(1), ArchiveFormat::Zip, &[], "/w/o.zip"),
        Error::PathError(PathProblem::NoInput)
    );
}

#[test]
fn tar_needs_a_parent_and_a_name_for_each_input() {
    assert_eq!(
        refusal(&request(1), ArchiveFormat::TarGzip, &[file("/w/a"), directory("/")], "/w/o.tar.gz"),
        Error::PathError(PathProblem::Unnamed)
    );
    assert_eq!(
        refusal(&request(1), ArchiveFormat::Tar, &[directory("/")], "/w/o.tar"),
        Error::PathError(PathProblem::Unnamed)
    );
    assert_eq!(
        tar_member_arguments(&vec![file("/w/a"), directory("/w/sub/dir")]),
        Ok(vec!["-C", "/w", "a", "-C", "/w/sub", "dir"].into_iter().map(String::from).collect())
    );
    assert_eq!(tar_member_arguments(&vec![]), Ok(vec![]));
}

#[test]
fn resolving_checks_the_format_of_the_target() {
    let inputs = vec![file("/w/a")];
    assert_eq!(resolve_archive(&request(1), &inputs, "out.tar.gz"), Ok(ArchiveFormat::TarGzip));
    assert_eq!(resolve_archive(&request(1), &inputs, "out.bin"), Err(Error::UnknownFormat));
    let mut with_password = request(1);
    with_password.password = Some("x".to_string());
    assert_eq!(resolve_archive(&with_password, &inputs, "out.7z"), Ok(ArchiveFormat::P7z));
    assert_eq!(
        resolve_archive(&with_password, &inputs, "out.xz"),
        Err(Error::IncompatibleOption(OptionName::Password))
    );
    assert_eq!(
        resolve_archive(&request(1), &vec![file("/w/a"), file("/w/b")], "out.gz"),
        Err(Error::MultiInputSingleFileFormat(ArchiveFormat::Gzip))
    );
    assert_eq!(
        resolve_archive(&request(1), &vec![], "out.zip"),
        Err(Error::PathError(PathProblem::NoInput))
    );
}

#[test]
fn archive_goes_where_asked_or_beside_the_working_directory() {
    let mut asked = request(1);
    asked.output_path = Some("backup/out.7z".to_string());
    assert_eq!(archive_target(&asked, &vec![file("/w/a.txt")], "/home/me"), Ok("backup/out.7z".to_string()));
    assert_eq!(
        archive_target(&request(1), &vec![file("/w/foo.wav"), file("/w/b")], "/home/me"),
        Ok("/home/me/foo.wav.rar".to_string())
    );
    assert_eq!(
        archive_target(&request(1), &vec![directory("/w/foo/bar")], "/home/me/"),
        Ok("/home/me/bar.rar".to_string())
    );
    assert_eq!(archive_target(&request(1), &vec![], "/home/me"), Err(Error::PathError(PathProblem::NoInput)));
    assert_eq!(
        archive_target(&request(1), &vec![directory("/")], "/home/me"),
        Err(Error::PathError(PathProblem::Unnamed))
    );
}

#[test]
fn tools_run_in_the_directory_of_the_output() {
    assert_eq!(directory_of("/work/sub/out.zip"), Some("/work/sub".to_string()));
    assert_eq!(directory_of("/out.zip"), Some("/".to_string()));
    assert_eq!(directory_of("out.zip"), None);
    assert_eq!(directory_of("/"), None);
    assert_eq!(directory_of(""), None);
}

#[test]
fn temporary_file_stands_beside_the_output() {
    assert_eq!(temporary_beside("/work/out.zip"), Some("/work/out.tmp.zip".to_string()));
    assert_eq!(temporary_beside("/work/a.b.zip"), Some("/work/a.b.tmp.zip".to_string()));
    assert_eq!(temporary_beside("/out.zip"), Some("/out.tmp.zip".to_string()));
    assert_eq!(temporary_beside("/"), None);
}

#[test]
fn chains_put_parallel_tools_first() {
    let d = CompressionLevel::Default;
    assert_eq!(archive_tools(ArchiveFormat::TarZ, 8, d), vec![Tool::Compress]);
    assert_eq!(archive_tools(ArchiveFormat::Z, 8, d), vec![Tool::Compress]);
    assert_eq!(archive_tools(ArchiveFormat::TarGzip, 8, d), vec![Tool::Pigz, Tool::Gzip]);
    assert_eq!(archive_tools(ArchiveFormat::Gzip, 2, d), vec![Tool::Pigz, Tool::Gzip]);
    assert_eq!(archive_tools(ArchiveFormat::TarBzip2, 2, d), vec![Tool::Lbzip2, Tool::Pbzip2, Tool::Bzip2]);
    assert_eq!(archive_tools(ArchiveFormat::Bzip2, 2, d), vec![Tool::Lbzip2, Tool::Pbzip2, Tool::Bzip2]);
    assert_eq!(archive_tools(ArchiveFormat::TarLz, 2, d), vec![Tool::Plzip, Tool::Lzip]);
    assert_eq!(archive_tools(ArchiveFormat::Lz, 2, d), vec![Tool::Plzip, Tool::Lzip]);
    assert_eq!(archive_tools(ArchiveFormat::TarXz, 2, d), vec![Tool::Pxz, Tool::Xz]);
    assert_eq!(archive_tools(ArchiveFormat::Xz, 2, d), vec![Tool::Pxz, Tool::Xz]);
    assert_eq!(archive_tools(ArchiveFormat::TarLzma, 2, d), vec![Tool::Pxz, Tool::Lzma]);
    assert_eq!(archive_tools(ArchiveFormat::Lzma, 2, d), vec![Tool::Pxz, Tool::Lzma]);
    assert_eq!(archive_tools(ArchiveFormat::TarZstd, 2, d), vec![Tool::Pzstd, Tool::Zstd]);
    assert_eq!(archive_tools(ArchiveFormat::Zstd, 2, d), vec![Tool::Pzstd, Tool::Zstd]);
    assert_eq!(archive_tools(ArchiveFormat::Tar, 2, d), vec![Tool::Tar]);
    assert_eq!(archive_tools(ArchiveFormat::Tar7z, 2, d), vec![Tool::P7z]);
    assert_eq!(archive_tools(ArchiveFormat::P7z, 2, d), vec![Tool::P7z]);
    assert_eq!(archive_tools(ArchiveFormat::Zip, 2, d), vec![Tool::P7z]);
    assert_eq!(archive_tools(ArchiveFormat::Rar, 2, d), vec![Tool::Rar]);
}

const ALL_FORMATS: [ArchiveFormat; 19] = [
    ArchiveFormat::Z,
    ArchiveFormat::Zip,
    ArchiveFormat::Gzip,
    ArchiveFormat::Bzip2,
    ArchiveFormat::Lz,
    ArchiveFormat::Xz,
    ArchiveFormat::Lzma,
    ArchiveFormat::P7z,
    ArchiveFormat::Tar,
    ArchiveFormat::TarZ,
    ArchiveFormat::TarGzip,
    ArchiveFormat::TarBzip2,
    ArchiveFormat::TarLz,
    ArchiveFormat::TarXz,
    ArchiveFormat::TarLzma,
    ArchiveFormat::Tar7z,
    ArchiveFormat::TarZstd,
    ArchiveFormat::Rar,
    ArchiveFormat::Zstd,
];

#[test]
fn one_thread_tries_no_parallel_tool() {
    for format in ALL_FORMATS {
        for level in [CompressionLevel::Default, CompressionLevel::Fast, CompressionLevel::Best] {
            let best_gzip = level == CompressionLevel::Best
                && (format == ArchiveFormat::Gzip || format == ArchiveFormat::TarGzip);
            let chain = archive_tools(format, 1, level);
            assert_eq!(chain.iter().any(|t| t.parallel()), best_gzip, "{:?} {:?}", format, level);
            let mut request = request(1);
            request.level = level;
            let plan = plan(&request, format, &[file("/w/a")], "/w/o");
            assert_eq!(tools(&plan), chain);
            assert!(plan.candidates[plan.candidates.len() - 1].probe.is_none());
            for candidate in &plan.candidates[..plan.candidates.len() - 1] {
                assert!(candidate.probe.is_some());
            }
        }
    }
}

#[test]
fn best_gzip_tries_pigz_even_with_one_thread() {
    let mut request = request(1);
    request.level = CompressionLevel::Best;
    let plan = plan(&request, ArchiveFormat::Gzip, &[file("/w/a")], "/w/a.gz");
    assert_eq!(tools(&plan), vec![Tool::Pigz, Tool::Gzip]);
    assert_eq!(single(&plan.candidates[0].pipeline), vec!["pigz", "-c", "-p", "1", "/w/a", "-9"]);
    assert_eq!(single(&plan.candidates[1].pipeline), vec!["gzip", "-c", "/w/a", "-9"]);
    let wrapped = plan_of(&request, ArchiveFormat::TarGzip);
    assert_eq!(piped(&wrapped.candidates[0].pipeline).1, vec!["pigz", "-c", "-p", "1", "-11"]);
    assert_eq!(piped(&wrapped.candidates[1].pipeline).1, vec!["gzip", "-c", "-", "-9"]);
}

fn plan_of(request: &ArchiveRequest, format: ArchiveFormat) -> Plan {
    plan(request, format, &[file("/w/a")], "/w/o")
}

fn second_stages(request: &ArchiveRequest, format: ArchiveFormat) -> Vec<Vec<String>> {
    let plan = plan_of(request, format);
    plan.candidates
        .iter()
        .map(|c| {
            let (tar, tool) = piped(&c.pipeline);
            assert_eq!(tar, vec!["tar", "-c", "-f", "-", "-C", "/w", "a"]);
            tool.into_iter().map(String::from).collect()
        })
        .collect()
}

fn singles(request: &ArchiveRequest, format: ArchiveFormat) -> Vec<Vec<String>> {
    let plan = plan_of(request, format);
    plan.candidates
        .iter()
        .map(|c| single(&c.pipeline).into_iter().map(String::from).collect())
        .collect()
}

fn lines(rows: &[&str]) -> Vec<Vec<String>> {
    rows.iter().map(|row| row.split(' ').map(String::from).collect()).collect()
}

#[test]
fn tar_wrapped_compressors_read_the_standard_input() {
    let mut request = request(6);
    request.quiet = true;
    request.level = CompressionLevel::Fast;
    assert_eq!(second_stages(&request, ArchiveFormat::TarZ), lines(&["compress -c -"]));
    assert_eq!(
        second_stages(&request, ArchiveFormat::TarGzip),
        lines(&["pigz -c -p 6 -q -1", "gzip -c - -q -1"])
    );
    assert_eq!(
        second_stages(&request, ArchiveFormat::TarBzip2),
        lines(&["lbzip2 -z -c -n 6 - -q -1", "pbzip2 -z -c -p6 - -q -1", "bzip2 -z -c - -q -1"])
    );
    assert_eq!(
        second_stages(&request, ArchiveFormat::TarLz),
        lines(&["plzip -F -c -n 6 - -q -1", "lzip -F -c - -q -1"])
    );
    assert_eq!(
        second_stages(&request, ArchiveFormat::TarXz),
        lines(&["pxz -z -c -T 6 - -q -0", "xz -z -c - -q -0"])
    );
    assert_eq!(
        second_stages(&request, ArchiveFormat::TarLzma),
        lines(&["pxz -z -c -T 6 -F lzma - -q -0", "lzma -z -c - -q -0"])
    );
    assert_eq!(
        second_stages(&request, ArchiveFormat::TarZstd),
        lines(&["pzstd -p 6 - -o /w/o -q -1", "zstd - -o /w/o -q -1"])
    );
    assert_eq!(second_stages(&request, ArchiveFormat::Tar7z), lines(&["7z a -t7z -aoa -mmt6 -si -m0=copy /w/o"]));
}

#[test]
fn single_file_compressors_read_the_input() {
    let mut request = request(12);
    request.level = CompressionLevel::Best;
    assert_eq!(singles(&request, ArchiveFormat::Z), lines(&["compress -c /w/a"]));
    assert_eq!(singles(&request, ArchiveFormat::Gzip), lines(&["pigz -c -p 12 /w/a -9", "gzip -c /w/a -9"]));
    assert_eq!(
        singles(&request, ArchiveFormat::Bzip2),
        lines(&["lbzip2 -z -c -n 12 /w/a -9", "pbzip2 -z -c -p12 /w/a -9", "bzip2 -z -c /w/a -9"])
    );
    assert_eq!(singles(&request, ArchiveFormat::Lz), lines(&["plzip -F -c -n 12 /w/a -9", "lzip -F -c /w/a -9"]));
    assert_eq!(
        singles(&request, ArchiveFormat::Xz),
        lines(&["pxz -z -c -T 12 /w/a -9 -e", "xz -z -c /w/a -9 -e"])
    );
    assert_eq!(
        singles(&request, ArchiveFormat::Lzma),
        lines(&["pxz -z -c -T 12 -F lzma /w/a -9 -e", "lzma -z -c /w/a -9 -e"])
    );
    assert_eq!(
        singles(&request, ArchiveFormat::Zstd),
        lines(&["pzstd -p 12 /w/a -o /w/o --ultra -22", "zstd /w/a -o /w/o --ultra -22"])
    );
}

#[test]
fn output_is_connected_to_the_standard_output_where_the_tool_writes_there() {
    for format in ALL_FORMATS {
        let plan = plan_of(&request(2), format);
        let expected = matches!(
            format,
            ArchiveFormat::TarZ
                | ArchiveFormat::TarGzip
                | ArchiveFormat::TarBzip2
                | ArchiveFormat::TarLz
                | ArchiveFormat::TarXz
                | ArchiveFormat::TarLzma
                | ArchiveFormat::Z
                | ArchiveFormat::Gzip
                | ArchiveFormat::Bzip2
                | ArchiveFormat::Lz
                | ArchiveFormat::Xz
                | ArchiveFormat::Lzma
        );
        assert_eq!(plan.stdout, if expected { Some("/w/o".to_string()) } else { None }, "{:?}", format);
        assert_eq!(plan.output, Some("/w/o".to_string()));
        for candidate in &plan.candidates {
            assert_eq!(matches!(candidate.pipeline, Pipeline::Piped(..)), format.tar_wrapped());
        }
    }
}

#[test]
fn plain_tar_lists_what_it_stores_unless_quiet() {
    let inputs = [file("/w/a"), directory("/x/y/z")];
    let plan1 = plan(&request(4), ArchiveFormat::Tar, &inputs, "/w/o.tar");
    assert_eq!(
        single(&plan1.candidates[0].pipeline),
        vec!["tar", "-c", "-v", "-f", "/w/o.tar", "-C", "/w", "a", "-C", "/x/y", "z"]
    );
    let mut quiet = request(4);
    quiet.quiet = true;
    let plan2 = plan(&quiet, ArchiveFormat::Tar, &inputs, "/w/o.tar");
    assert_eq!(
        single(&plan2.candidates[0].pipeline),
        vec!["tar", "-c", "-f", "/w/o.tar", "-C", "/w", "a", "-C", "/x/y", "z"]
    );
    assert!(!plan2.silent);
}

#[test]
fn seven_zip_takes_level_password_and_volumes() {
    let mut request = request(2);
    request.level = CompressionLevel::Best;
    request.password = Some("s3".to_string());
    request.split = Some(65536);
    request.quiet = true;
    let plan = plan(&request, ArchiveFormat::P7z, &[file("/w/a"), file("/w/b")], "/w/o.7z");
    assert_eq!(
        single(&plan.candidates[0].pipeline),
        vec![
            "7z", "a", "-t7z", "-aoa", "-mmt2", "-m0=lzma2", "-mx", "-ms=on", "-mhe=on", "-ps3", "-v64k",
            "/w/o.7z", "/w/a", "/w/b"
        ]
    );
    assert!(plan.silent);
    assert!(plan.follow_up.is_none());
    let wrapped = plan_of(&request, ArchiveFormat::Tar7z);
    assert_eq!(
        piped(&wrapped.candidates[0].pipeline).1,
        vec![
            "7z", "a", "-t7z", "-aoa", "-mmt2", "-si", "-m0=lzma2", "-mx", "-ms=on", "-mhe=on", "-ps3",
            "-v64k", "/w/o"
        ]
    );
    assert!(wrapped.silent);
}

#[test]
fn empty_password_adds_no_argument() {
    let mut request = request(1);
    request.password = Some(String::new());
    let plan = plan(&request, ArchiveFormat::P7z, &[file("/w/a")], "/w/o.7z");
    assert_eq!(single(&plan.candidates[0].pipeline), vec!["7z", "a", "-t7z", "-aoa", "-mmt1", "/w/o.7z", "/w/a"]);
    let plan = plan_of(&request, ArchiveFormat::Rar);
    assert_eq!(single(&plan.candidates[0].pipeline), vec!["rar", "a", "-ep1", "-mt1", "/w/o", "/w/a"]);
}

#[test]
fn rar_takes_every_option() {
    let mut request = request(16);
    request.level = CompressionLevel::Best;
    request.password = Some("pw".to_string());
    request.split = Some(10485760);
    request.recovery_record = Some(5);
    request.quiet = true;
    let full = plan(&request, ArchiveFormat::Rar, &[file("/w/a"), directory("/w/d")], "/w/o.rar");
    assert_eq!(
        single(&full.candidates[0].pipeline),
        vec![
            "rar", "a", "-ep1", "-mt16", "-ma5", "-m5", "-s", "-hppw", "-idq", "-v10240k", "-rr5", "/w/o.rar",
            "/w/a", "/w/d"
        ]
    );
    assert!(!full.silent);
    request.level = CompressionLevel::Fast;
    request.recovery_record = Some(100);
    request.split = None;
    request.quiet = false;
    let fast = plan(&request, ArchiveFormat::Rar, &[file("/w/a")], "/w/o.rar");
    assert_eq!(
        single(&fast.candidates[0].pipeline),
        vec!["rar", "a", "-ep1", "-mt16", "-m0", "-hppw", "-rr100", "/w/o.rar", "/w/a"]
    );
}

#[test]
fn configured_tool_paths_are_used() {
    let mut paths = ExecutablePaths::default();
    paths.tar_path = "/opt/gtar".to_string();
    paths.pigz_path = "/opt/pigz".to_string();
    paths.gzip_path = "/opt/gzip".to_string();
    let plan = handle_compression(
        &paths,
        &request(2),
        ArchiveFormat::TarGzip,
        &vec![file("/w/a")],
        "/w/o.tgz",
        "",
    )
    .unwrap();
    assert_eq!(probe(&plan, 0), Some(vec!["/opt/pigz", "-V"]));
    let (tar, pigz) = piped(&plan.candidates[0].pipeline);
    assert_eq!(tar[0], "/opt/gtar");
    assert_eq!(pigz[0], "/opt/pigz");
    assert_eq!(piped(&plan.candidates[1].pipeline).1[0], "/opt/gzip");
}
