//! Errors of the removal pipeline, holding owned copies of the paths involved.
use vstd::prelude::*;

verus! {

#[derive(Debug, Clone, PartialEq, Eq)]
pub enum RoxError {
    NoSuchFile(String),
    NotADirectory(String),
    DirectoryNotEmpty(String),
    IsRoot(String),
    CrossesDevices(String),
    PatternNoMatch(String),
    PermissionDenied(String),
    IoError(String),
}

} // verus!
