//! What the caller found on the file system, as plain values.

use vstd::prelude::*;

use crate::error::{Error, PathProblem};

verus! {

/// One input of an operation: its canonical path and whether it is a
/// directory.
#[derive(Debug)]
pub struct InputEntry {
    pub path: String,
    pub is_dir: bool,
}

/// What stands at a path.
#[derive(Debug, Clone, Copy, PartialEq, Eq, Structural, Hash)]
pub enum PathStatus {
    Missing,
    File,
    Directory,
}

/// Judges the place where a file is to be written: a directory there is an
/// error; an existing file is to be removed first, which the answer tells.
pub open spec fn file_target_verdict(status: PathStatus) -> Result<bool, Error> {
    match status {
        PathStatus::Directory => Err(Error::PathError(PathProblem::IsDirectory)),
        PathStatus::File => Ok(true),
        PathStatus::Missing => Ok(false),
    }
}

/// Judges the place where a file is to be written. `Ok(true)` asks for the
/// existing file to be removed first.
pub fn check_file_target(status: PathStatus) -> (r: Result<bool, Error>)
    ensures
        r == file_target_verdict(status),
{
    match status {
        PathStatus::Directory => Err(Error::PathError(PathProblem::IsDirectory)),
        PathStatus::File => Ok(true),
        PathStatus::Missing => Ok(false),
    }
}

/// Judges the place that is to serve as a directory: anything else there is
/// an error; a missing directory is to be created, which the answer tells.
pub open spec fn directory_target_verdict(status: PathStatus) -> Result<bool, Error> {
    match status {
        PathStatus::File => Err(Error::PathError(PathProblem::NotDirectory)),
        PathStatus::Missing => Ok(true),
        PathStatus::Directory => Ok(false),
    }
}

/// Judges the place that is to serve as a directory. `Ok(true)` asks for the
/// directory to be created.
pub fn check_directory_target(status: PathStatus) -> (r: Result<bool, Error>)
    ensures
        r == directory_target_verdict(status),
{
    match status {
        PathStatus::File => Err(Error::PathError(PathProblem::NotDirectory)),
        PathStatus::Missing => Ok(true),
        PathStatus::Directory => Ok(false),
    }
}

/// The paths of the inputs.
pub open spec fn input_texts(inputs: Seq<InputEntry>) -> Seq<Seq<char>> {
    Seq::new(inputs.len(), |i: int| inputs[i].path@)
}

} // verus!
