//! The external tools and where to find them.

use vstd::prelude::*;

verus! {

/// The external programs that the planner may call on.
#[derive(Debug, Clone, Copy, PartialEq, Eq, Structural, Hash)]
pub enum Tool {
    Compress,
    Zip,
    Unzip,
    Gzip,
    Gunzip,
    Pigz,
    Bzip2,
    Bunzip2,
    Lbzip2,
    Pbzip2,
    Lzip,
    Lunzip,
    Plzip,
    Xz,
    Unxz,
    Pxz,
    Lzma,
    Unlzma,
    P7z,
    Tar,
    Rar,
    Unrar,
    Zstd,
    Unzstd,
    Pzstd,
}

impl Tool {
    /// Whether the tool is the multi-threaded stand-in for a canonical one.
    pub open spec fn is_parallel(self) -> bool {
        matches!(
            self,
            Tool::Pigz | Tool::Lbzip2 | Tool::Pbzip2 | Tool::Plzip | Tool::Pxz | Tool::Pzstd
        )
    }

    /// Tells whether the tool is the multi-threaded stand-in for a canonical one.
    pub fn parallel(self) -> (r: bool)
        ensures
            r == self.is_parallel(),
    {
        matches!(
            self,
            Tool::Pigz | Tool::Lbzip2 | Tool::Pbzip2 | Tool::Plzip | Tool::Pxz | Tool::Pzstd
        )
    }

    /// The name under which the tool is looked up when no path is configured.
    pub open spec fn default_name(self) -> Seq<char> {
        match self {
            Tool::Compress => "compress"@,
            Tool::Zip => "zip"@,
            Tool::Unzip => "unzip"@,
            Tool::Gzip => "gzip"@,
            Tool::Gunzip => "gunzip"@,
            Tool::Pigz => "pigz"@,
            Tool::Bzip2 => "bzip2"@,
            Tool::Bunzip2 => "bunzip2"@,
            Tool::Lbzip2 => "lbzip2"@,
            Tool::Pbzip2 => "pbzip2"@,
            Tool::Lzip => "lzip"@,
            Tool::Lunzip => "lunzip"@,
            Tool::Plzip => "plzip"@,
            Tool::Xz => "xz"@,
            Tool::Unxz => "unxz"@,
            Tool::Pxz => "pxz"@,
            Tool::Lzma => "lzma"@,
            Tool::Unlzma => "unlzma"@,
            Tool::P7z => "7z"@,
            Tool::Tar => "tar"@,
            Tool::Rar => "rar"@,
            Tool::Unrar => "unrar"@,
            Tool::Zstd => "zstd"@,
            Tool::Unzstd => "unzstd"@,
            Tool::Pzstd => "pzstd"@,
        }
    }
}

/// Where each tool is found: a path or a bare program name per tool.
#[derive(Debug)]
pub struct ExecutablePaths {
    pub compress_path: String,
    pub zip_path: String,
    pub unzip_path: String,
    pub gzip_path: String,
    pub gnuzip_path: String,
    pub pigz_path: String,
    pub bzip2_path: String,
    pub bunzip2_path: String,
    pub lbzip2_path: String,
    pub pbzip2_path: String,
    pub lzip_path: String,
    pub lunzip_path: String,
    pub plzip_path: String,
    pub xz_path: String,
    pub unxz_path: String,
    pub pxz_path: String,
    pub lzma_path: String,
    pub unlzma_path: String,
    pub p7z_path: String,
    pub tar_path: String,
    pub rar_path: String,
    pub unrar_path: String,
    pub zstd_path: String,
    pub unzstd_path: String,
    pub pzstd_path: String,
}

impl ExecutablePaths {
    /// The configured path of `tool`.
    pub open spec fn path_of(&self, tool: Tool) -> Seq<char> {
        match tool {
            Tool::Compress => self.compress_path@,
            Tool::Zip => self.zip_path@,
            Tool::Unzip => self.unzip_path@,
            Tool::Gzip => self.gzip_path@,
            Tool::Gunzip => self.gnuzip_path@,
            Tool::Pigz => self.pigz_path@,
            Tool::Bzip2 => self.bzip2_path@,
            Tool::Bunzip2 => self.bunzip2_path@,
            Tool::Lbzip2 => self.lbzip2_path@,
            Tool::Pbzip2 => self.pbzip2_path@,
            Tool::Lzip => self.lzip_path@,
            Tool::Lunzip => self.lunzip_path@,
            Tool::Plzip => self.plzip_path@,
            Tool::Xz => self.xz_path@,
            Tool::Unxz => self.unxz_path@,
            Tool::Pxz => self.pxz_path@,
            Tool::Lzma => self.lzma_path@,
            Tool::Unlzma => self.unlzma_path@,
            Tool::P7z => self.p7z_path@,
            Tool::Tar => self.tar_path@,
            Tool::Rar => self.rar_path@,
            Tool::Unrar => self.unrar_path@,
            Tool::Zstd => self.zstd_path@,
            Tool::Unzstd => self.unzstd_path@,
            Tool::Pzstd => self.pzstd_path@,
        }
    }

    /// The configured path of `tool`.
    pub fn path(&self, tool: Tool) -> (p: &str)
        ensures
            p@ == self.path_of(tool),
    {
        match tool {
            Tool::Compress => self.compress_path.as_str(),
            Tool::Zip => self.zip_path.as_str(),
            Tool::Unzip => self.unzip_path.as_str(),
            Tool::Gzip => self.gzip_path.as_str(),
            Tool::Gunzip => self.gnuzip_path.as_str(),
            Tool::Pigz => self.pigz_path.as_str(),
            Tool::Bzip2 => self.bzip2_path.as_str(),
            Tool::Bunzip2 => self.bunzip2_path.as_str(),
            Tool::Lbzip2 => self.lbzip2_path.as_str(),
            Tool::Pbzip2 => self.pbzip2_path.as_str(),
            Tool::Lzip => self.lzip_path.as_str(),
            Tool::Lunzip => self.lunzip_path.as_str(),
            Tool::Plzip => self.plzip_path.as_str(),
            Tool::Xz => self.xz_path.as_str(),
            Tool::Unxz => self.unxz_path.as_str(),
            Tool::Pxz => self.pxz_path.as_str(),
            Tool::Lzma => self.lzma_path.as_str(),
            Tool::Unlzma => self.unlzma_path.as_str(),
            Tool::P7z => self.p7z_path.as_str(),
            Tool::Tar => self.tar_path.as_str(),
            Tool::Rar => self.rar_path.as_str(),
            Tool::Unrar => self.unrar_path.as_str(),
            Tool::Zstd => self.zstd_path.as_str(),
            Tool::Unzstd => self.unzstd_path.as_str(),
            Tool::Pzstd => self.pzstd_path.as_str(),
        }
    }
}

impl Default for ExecutablePaths {
    /// Every tool under its default name, to be found on the search path.
    fn default() -> (r: ExecutablePaths)
        ensures
            forall|tool: Tool| #[trigger] r.path_of(tool) == tool.default_name(),
    {
        ExecutablePaths {
            compress_path: "compress".to_string(),
            zip_path: "zip".to_string(),
            unzip_path: "unzip".to_string(),
            gzip_path: "gzip".to_string(),
            gnuzip_path: "gunzip".to_string(),
            pigz_path: "pigz".to_string(),
            bzip2_path: "bzip2".to_string(),
            bunzip2_path: "bunzip2".to_string(),
            lbzip2_path: "lbzip2".to_string(),
            pbzip2_path: "pbzip2".to_string(),
            lzip_path: "lzip".to_string(),
            lunzip_path: "lunzip".to_string(),
            plzip_path: "plzip".to_string(),
            xz_path: "xz".to_string(),
            unxz_path: "unxz".to_string(),
            pxz_path: "pxz".to_string(),
            lzma_path: "lzma".to_string(),
            unlzma_path: "unlzma".to_string(),
            p7z_path: "7z".to_string(),
            tar_path: "tar".to_string(),
            rar_path: "rar".to_string(),
            unrar_path: "unrar".to_string(),
            zstd_path: "zstd".to_string(),
            unzstd_path: "unzstd".to_string(),
            pzstd_path: "pzstd".to_string(),
        }
    }
}

} // verus!
