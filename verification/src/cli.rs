//! The command line, as plain values.

use vstd::prelude::*;

use crate::tool::ExecutablePaths;

verus! {

/// The two subcommands with their own options.
#[derive(Debug)]
pub enum CLICommands {
    /// Extract an archive.
    X {
        input_path: String,
        /// The destination given as a positional argument.
        output_path: Option<String>,
        /// The destination given as an option.
        output: Option<String>,
    },
    /// Add files to an archive.
    A {
        input_paths: Vec<String>,
        output_path: Option<String>,
        best_compression: bool,
        fastest_compression: bool,
        /// The volume size as the user wrote it, such as `100KiB`.
        split: Option<String>,
        recovery_record: Option<u8>,
    },
}

/// A parsed command line.
#[derive(Debug)]
pub struct CLIArgs {
    pub command: CLICommands,
    pub quiet: bool,
    pub single_thread: bool,
    /// `Some("")` asks for the password to be read interactively.
    pub password: Option<String>,
    pub executable_paths: ExecutablePaths,
}

} // verus!
