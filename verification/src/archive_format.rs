//! Archive formats and how a file name selects one.

use vstd::prelude::*;

use crate::path::{file_name, path_file_name};
use crate::text::{chars_end_with, has_suffix, lower, lower_chars};

verus! {

/// The archive and compression schemes that a file name can denote.
#[derive(Debug, Clone, Copy, PartialEq, Eq, Structural, Hash)]
pub enum ArchiveFormat {
    Z,
    Zip,
    Gzip,
    Bzip2,
    Lz,
    Xz,
    Lzma,
    P7z,
    Tar,
    TarZ,
    TarGzip,
    TarBzip2,
    TarLz,
    TarXz,
    TarLzma,
    Tar7z,
    TarZstd,
    Rar,
    Zstd,
}

/// The suffix rules, in the order in which they are tried: the suffixes of
/// tar-wrapped formats first, then plain tar, then the simple suffixes.
pub open spec fn suffix_rules() -> Seq<(Seq<char>, ArchiveFormat)> {
    seq![
        (".tar.z"@, ArchiveFormat::TarZ),
        (".tar.gz"@, ArchiveFormat::TarGzip),
        (".tgz"@, ArchiveFormat::TarGzip),
        (".tar.bz2"@, ArchiveFormat::TarBzip2),
        (".tbz2"@, ArchiveFormat::TarBzip2),
        (".tar.lz"@, ArchiveFormat::TarLz),
        (".tar.xz"@, ArchiveFormat::TarXz),
        (".txz"@, ArchiveFormat::TarXz),
        (".tar.lzma"@, ArchiveFormat::TarLzma),
        (".tlz"@, ArchiveFormat::TarLzma),
        (".tar.7z"@, ArchiveFormat::Tar7z),
        (".tar.7z.001"@, ArchiveFormat::Tar7z),
        (".t7z"@, ArchiveFormat::Tar7z),
        (".tar.zst"@, ArchiveFormat::TarZstd),
        (".tar"@, ArchiveFormat::Tar),
        (".z"@, ArchiveFormat::Z),
        (".zip"@, ArchiveFormat::Zip),
        (".gz"@, ArchiveFormat::Gzip),
        (".bz2"@, ArchiveFormat::Bzip2),
        (".lz"@, ArchiveFormat::Lz),
        (".xz"@, ArchiveFormat::Xz),
        (".lzma"@, ArchiveFormat::Lzma),
        (".7z"@, ArchiveFormat::P7z),
        (".7z.001"@, ArchiveFormat::P7z),
        (".rar"@, ArchiveFormat::Rar),
        (".zst"@, ArchiveFormat::Zstd),
    ]
}

/// The format of the first rule, from index `from` on, whose suffix ends `name`.
pub open spec fn first_match(
    name: Seq<char>,
    rules: Seq<(Seq<char>, ArchiveFormat)>,
    from: int,
) -> Option<ArchiveFormat>
    decreases rules.len() - from,
{
    if from < 0 || from >= rules.len() {
        None
    } else if has_suffix(name, rules[from].0) {
        Some(rules[from].1)
    } else {
        first_match(name, rules, from + 1)
    }
}

/// The format that the file name `name` denotes, if any: the name is folded
/// to lower case and the suffix rules are tried in order.
pub open spec fn format_of_name(name: Seq<char>) -> Option<ArchiveFormat> {
    first_match(lower(name), suffix_rules(), 0)
}

/// The format that the path `path` denotes: that of its final component.
pub open spec fn format_of_path(path: Seq<char>) -> Option<ArchiveFormat> {
    match path_file_name(path) {
        Some(name) => format_of_name(name),
        None => None,
    }
}

/// The suffix rules as a table to walk.
fn rule_table() -> (r: Vec<(&'static str, ArchiveFormat)>)
    ensures
        r@.len() == suffix_rules().len(),
        forall|i: int|
            0 <= i < r@.len() ==> (#[trigger] r@[i]).0@ == suffix_rules()[i].0 && r@[i].1
                == suffix_rules()[i].1,
{
    let mut r: Vec<(&'static str, ArchiveFormat)> = Vec::new();
    r.push((".tar.z", ArchiveFormat::TarZ));
    r.push((".tar.gz", ArchiveFormat::TarGzip));
    r.push((".tgz", ArchiveFormat::TarGzip));
    r.push((".tar.bz2", ArchiveFormat::TarBzip2));
    r.push((".tbz2", ArchiveFormat::TarBzip2));
    r.push((".tar.lz", ArchiveFormat::TarLz));
    r.push((".tar.xz", ArchiveFormat::TarXz));
    r.push((".txz", ArchiveFormat::TarXz));
    r.push((".tar.lzma", ArchiveFormat::TarLzma));
    r.push((".tlz", ArchiveFormat::TarLzma));
    r.push((".tar.7z", ArchiveFormat::Tar7z));
    r.push((".tar.7z.001", ArchiveFormat::Tar7z));
    r.push((".t7z", ArchiveFormat::Tar7z));
    r.push((".tar.zst", ArchiveFormat::TarZstd));
    r.push((".tar", ArchiveFormat::Tar));
    r.push((".z", ArchiveFormat::Z));
    r.push((".zip", ArchiveFormat::Zip));
    r.push((".gz", ArchiveFormat::Gzip));
    r.push((".bz2", ArchiveFormat::Bzip2));
    r.push((".lz", ArchiveFormat::Lz));
    r.push((".xz", ArchiveFormat::Xz));
    r.push((".lzma", ArchiveFormat::Lzma));
    r.push((".7z", ArchiveFormat::P7z));
    r.push((".7z.001", ArchiveFormat::P7z));
    r.push((".rar", ArchiveFormat::Rar));
    r.push((".zst", ArchiveFormat::Zstd));
    r
}

impl ArchiveFormat {
    /// Whether the format is a tar archive run through a compressor.
    pub open spec fn is_tar_wrapped(self) -> bool {
        matches!(
            self,
            ArchiveFormat::TarZ
                | ArchiveFormat::TarGzip
                | ArchiveFormat::TarBzip2
                | ArchiveFormat::TarLz
                | ArchiveFormat::TarXz
                | ArchiveFormat::TarLzma
                | ArchiveFormat::Tar7z
                | ArchiveFormat::TarZstd
        )
    }

    /// Whether archives of the format can be protected by a password.
    pub open spec fn supports_password(self) -> bool {
        matches!(
            self,
            ArchiveFormat::Tar7z | ArchiveFormat::P7z | ArchiveFormat::Zip | ArchiveFormat::Rar
        )
    }

    /// Whether archives of the format can be split into volumes.
    pub open spec fn supports_split(self) -> bool {
        matches!(
            self,
            ArchiveFormat::Tar7z | ArchiveFormat::P7z | ArchiveFormat::Zip | ArchiveFormat::Rar
        )
    }

    /// Whether archives of the format can carry a recovery record.
    pub open spec fn supports_recovery_record(self) -> bool {
        self == ArchiveFormat::Rar
    }

    /// Whether the format holds exactly one compressed file and nothing else.
    pub open spec fn is_single_stream(self) -> bool {
        matches!(
            self,
            ArchiveFormat::Z
                | ArchiveFormat::Gzip
                | ArchiveFormat::Bzip2
                | ArchiveFormat::Lz
                | ArchiveFormat::Xz
                | ArchiveFormat::Lzma
                | ArchiveFormat::Zstd
        )
    }

    /// Tells whether the format is a tar archive run through a compressor.
    pub fn tar_wrapped(self) -> (r: bool)
        ensures
            r == self.is_tar_wrapped(),
    {
        matches!(
            self,
            ArchiveFormat::TarZ
                | ArchiveFormat::TarGzip
                | ArchiveFormat::TarBzip2
                | ArchiveFormat::TarLz
                | ArchiveFormat::TarXz
                | ArchiveFormat::TarLzma
                | ArchiveFormat::Tar7z
                | ArchiveFormat::TarZstd
        )
    }

    /// Tells whether archives of the format can be protected by a password.
    pub fn accepts_password(self) -> (r: bool)
        ensures
            r == self.supports_password(),
    {
        matches!(
            self,
            ArchiveFormat::Tar7z | ArchiveFormat::P7z | ArchiveFormat::Zip | ArchiveFormat::Rar
        )
    }

    /// Tells whether archives of the format can be split into volumes.
    pub fn accepts_split(self) -> (r: bool)
        ensures
            r == self.supports_split(),
    {
        matches!(
            self,
            ArchiveFormat::Tar7z | ArchiveFormat::P7z | ArchiveFormat::Zip | ArchiveFormat::Rar
        )
    }

    /// Tells whether archives of the format can carry a recovery record.
    pub fn accepts_recovery_record(self) -> (r: bool)
        ensures
            r == self.supports_recovery_record(),
    {
        matches!(self, ArchiveFormat::Rar)
    }

    /// Tells whether the format holds exactly one compressed file.
    pub fn single_stream(self) -> (r: bool)
        ensures
            r == self.is_single_stream(),
    {
        matches!(
            self,
            ArchiveFormat::Z
                | ArchiveFormat::Gzip
                | ArchiveFormat::Bzip2
                | ArchiveFormat::Lz
                | ArchiveFormat::Xz
                | ArchiveFormat::Lzma
                | ArchiveFormat::Zstd
        )
    }

    /// Resolves a file name, without any directory part, to its format.
    pub fn from_file_name(name: &str) -> (r: Option<ArchiveFormat>)
        ensures
            r == format_of_name(name@),
    {
        let folded = lower_chars(name);
        let rules = rule_table();
        let mut i: usize = 0;
        while i < rules.len()
            invariant
                i <= rules@.len(),
                rules@.len() == suffix_rules().len(),
                forall|k: int|
                    0 <= k < rules@.len() ==> (#[trigger] rules@[k]).0@ == suffix_rules()[k].0
                        && rules@[k].1 == suffix_rules()[k].1,
                folded@ == lower(name@),
                format_of_name(name@) == first_match(folded@, suffix_rules(), i as int),
            decreases rules@.len() - i,
        {
            if chars_end_with(&folded, rules[i].0) {
                return Some(rules[i].1);
            }
            i += 1;
        }
        None
    }

    /// Resolves a path to the format that its final component denotes.
    pub fn get_archive_format_from_file_path(file_path: &str) -> (r: Result<
        ArchiveFormat,
        &'static str,
    >)
        ensures
            match r {
                Ok(format) => format_of_path(file_path@) == Some(format),
                Err(message) => format_of_path(file_path@) is None && message@
                    == "Unknown archive format."@,
            },
    {
        match file_name(file_path) {
            Some(name) => match ArchiveFormat::from_file_name(name.as_str()) {
                Some(format) => Ok(format),
                None => Err("Unknown archive format."),
            },
            None => Err("Unknown archive format."),
        }
    }
}

} // verus!
