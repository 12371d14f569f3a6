use xcompress::ArchiveFormat;

fn resolve(path: &str) -> Result<ArchiveFormat, &'static str> {
    ArchiveFormat::get_archive_format_from_file_path(path)
}

#[test]
fn resolves_compound_suffix_before_simple() {
    assert_eq!(resolve("x.tar.gz"), Ok(ArchiveFormat::TarGzip));
    assert_ne!(resolve("x.tar.gz"), Ok(ArchiveFormat::Gzip));
}

#[test]
fn resolves_first_volume_of_tar_7z() {
    assert_eq!(resolve("archive.tar.7z.001"), Ok(ArchiveFormat::Tar7z));
}

#[test]
fn resolves_every_compound_suffix() {
    assert_eq!(resolve("a.tar.z"), Ok(ArchiveFormat::TarZ));
    assert_eq!(resolve("a.tar.gz"), Ok(ArchiveFormat::TarGzip));
    assert_eq!(resolve("a.tgz"), Ok(ArchiveFormat::TarGzip));
    assert_eq!(resolve("a.tar.bz2"), Ok(ArchiveFormat::TarBzip2));
    assert_eq!(resolve("a.tbz2"), Ok(ArchiveFormat::TarBzip2));
    assert_eq!(resolve("a.tar.lz"), Ok(ArchiveFormat::TarLz));
    assert_eq!(resolve("a.tar.xz"), Ok(ArchiveFormat::TarXz));
    assert_eq!(resolve("a.txz"), Ok(ArchiveFormat::TarXz));
    assert_eq!(resolve("a.tar.lzma"), Ok(ArchiveFormat::TarLzma));
    assert_eq!(resolve("a.tlz"), Ok(ArchiveFormat::TarLzma));
    assert_eq!(resolve("a.tar.7z"), Ok(ArchiveFormat::Tar7z));
    assert_eq!(resolve("a.t7z"), Ok(ArchiveFormat::Tar7z));
    assert_eq!(resolve("a.tar.zst"), Ok(ArchiveFormat::TarZstd));
}

#[test]
fn resolves_every_simple_suffix() {
    assert_eq!(resolve("a.tar"), Ok(ArchiveFormat::Tar));
    assert_eq!(resolve("a.z"), Ok(ArchiveFormat::Z));
    assert_eq!(resolve("a.zip"), Ok(ArchiveFormat::Zip));
    assert_eq!(resolve("a.gz"), Ok(ArchiveFormat::Gzip));
    assert_eq!(resolve("a.bz2"), Ok(ArchiveFormat::Bzip2));
    assert_eq!(resolve("a.lz"), Ok(ArchiveFormat::Lz));
    assert_eq!(resolve("a.xz"), Ok(ArchiveFormat::Xz));
    assert_eq!(resolve("a.lzma"), Ok(ArchiveFormat::Lzma));
    assert_eq!(resolve("a.7z"), Ok(ArchiveFormat::P7z));
    assert_eq!(resolve("a.7z.001"), Ok(ArchiveFormat::P7z));
    assert_eq!(resolve("a.rar"), Ok(ArchiveFormat::Rar));
    assert_eq!(resolve("a.zst"), Ok(ArchiveFormat::Zstd));
}

#[test]
fn resolver_ignores_case() {
    assert_eq!(resolve("PHOTOS.TAR.GZ"), Ok(ArchiveFormat::TarGzip));
    assert_eq!(resolve("Backup.Tar.Z"), Ok(ArchiveFormat::TarZ));
    assert_eq!(resolve("notes.Zip"), Ok(ArchiveFormat::Zip));
    assert_eq!(resolve("a.RAR"), Ok(ArchiveFormat::Rar));
}

#[test]
fn resolver_rejects_unknown_names() {
    assert_eq!(resolve("a.txt"), Err("Unknown archive format."));
    assert_eq!(resolve("tar"), Err("Unknown archive format."));
    assert_eq!(resolve("a.tar.gz.bak"), Err("Unknown archive format."));
    assert_eq!(resolve(""), Err("Unknown archive format."));
}

#[test]
fn resolver_looks_at_the_final_component_only() {
    assert_eq!(resolve("/data/in.zip/out.tar.xz"), Ok(ArchiveFormat::TarXz));
    assert_eq!(resolve("/data/in.tar.gz/out.7z"), Ok(ArchiveFormat::P7z));
    assert_eq!(resolve("/data/in.zip/readme"), Err("Unknown archive format."));
}

#[test]
fn resolver_takes_the_name_out_of_the_path() {
    // The final component is what precedes the trailing separator.
    assert_eq!(resolve("backup.tar.gz/"), Ok(ArchiveFormat::TarGzip));
    assert_eq!(resolve("dir/photos.zip/."), Ok(ArchiveFormat::Zip));
    // A path that ends in `..` has no final component.
    assert_eq!(resolve("dir.zip/.."), Err("Unknown archive format."));
    assert_eq!(resolve("/"), Err("Unknown archive format."));
}

#[test]
fn tar_z_suffix_needs_its_dot() {
    assert_eq!(resolve("foo.tar.z"), Ok(ArchiveFormat::TarZ));
    assert_eq!(resolve("FOO.TAR.Z"), Ok(ArchiveFormat::TarZ));
    assert_eq!(resolve(".tar.z"), Ok(ArchiveFormat::TarZ));
    // Without a dot before `tar` only the simple suffix applies.
    assert_eq!(resolve("guitar.z"), Ok(ArchiveFormat::Z));
    assert_eq!(resolve("footar.z"), Ok(ArchiveFormat::Z));
    assert_eq!(resolve("tar.z"), Ok(ArchiveFormat::Z));
    assert_eq!(resolve("foo.z"), Ok(ArchiveFormat::Z));
}

#[test]
fn longest_suffix_wins_on_examples() {
    // Each name also ends with a shorter suffix of another format.
    assert_eq!(resolve("x.tar.lzma"), Ok(ArchiveFormat::TarLzma));
    assert_eq!(resolve("x.tar.7z.001"), Ok(ArchiveFormat::Tar7z));
    assert_eq!(resolve("x.tar.bz2"), Ok(ArchiveFormat::TarBzip2));
    assert_eq!(resolve("x.tar.zst"), Ok(ArchiveFormat::TarZstd));
    assert_eq!(resolve("x.tar.lz"), Ok(ArchiveFormat::TarLz));
}

#[test]
fn file_name_resolution_answers_with_an_option() {
    assert_eq!(ArchiveFormat::from_file_name("x.TGZ"), Some(ArchiveFormat::TarGzip));
    assert_eq!(ArchiveFormat::from_file_name("x.tar"), Some(ArchiveFormat::Tar));
    assert_eq!(ArchiveFormat::from_file_name("x"), None);
    // Taken as a name, a trailing separator is part of it.
    assert_eq!(ArchiveFormat::from_file_name("x.zip/"), None);
}

#[test]
fn format_capabilities() {
    for format in [ArchiveFormat::Tar7z, ArchiveFormat::P7z, ArchiveFormat::Zip, ArchiveFormat::Rar] {
        assert!(format.accepts_password());
        assert!(format.accepts_split());
    }
    for format in [ArchiveFormat::Tar, ArchiveFormat::TarGzip, ArchiveFormat::Gzip, ArchiveFormat::Zstd] {
        assert!(!format.accepts_password());
        assert!(!format.accepts_split());
        assert!(!format.accepts_recovery_record());
    }
    assert!(ArchiveFormat::Rar.accepts_recovery_record());
    assert!(!ArchiveFormat::Zip.accepts_recovery_record());
    assert!(ArchiveFormat::TarZ.tar_wrapped());
    assert!(ArchiveFormat::Tar7z.tar_wrapped());
    assert!(!ArchiveFormat::Tar.tar_wrapped());
    assert!(ArchiveFormat::Gzip.single_stream());
    assert!(ArchiveFormat::Z.single_stream());
    assert!(!ArchiveFormat::Zip.single_stream());
    assert!(!ArchiveFormat::TarGzip.single_stream());
}
