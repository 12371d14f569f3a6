//! Decision engine of a multi-format archiver front end.
//!
//! The crate resolves file names to archive formats, validates requests,
//! builds the command lines of the external tools to run, and decides what
//! to do with their outcome. Running the tools is left to the caller.
//!
//! - [`archive_format`]: the formats and the suffix rules that select one.
//! - [`request`]: what a command line asks for, once read and checked.
//! - [`compression`], [`decompression`]: the candidates to try for a
//!   request, with their command lines.
//! - [`plan`]: probing, running and cleaning up, one decision at a time.
//! - [`session`]: one operation from the request to the exit status.
//! - [`format_laws`], [`laws`], [`session_laws`]: what holds of all of it.

pub mod archive_format;
pub mod cli;
pub mod command;
pub mod compression;
pub mod decompression;
pub mod error;
pub mod facts;
pub mod format_laws;
pub mod laws;
pub mod path;
pub mod plan;
pub mod request;
pub mod session;
pub mod session_laws;
pub mod text;
pub mod tool;

pub use archive_format::ArchiveFormat;
pub use cli::{CLIArgs, CLICommands};
pub use command::{Command, Pipeline, ToolCandidate};
pub use compression::handle_compression;
pub use decompression::handle_decompression;
pub use error::{Error, OptionName, PathProblem, UsageProblem};
pub use facts::{InputEntry, PathStatus};
pub use plan::{Action, Cursor, Event, Outcome, Plan, Verdict};
pub use request::{ArchiveRequest, CompressionLevel, ExtractRequest, Request};
pub use session::{Report, Session, Stage, Step};
pub use tool::{ExecutablePaths, Tool};
