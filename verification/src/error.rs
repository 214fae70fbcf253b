//! The failures that parsing and transferring can report.

use vstd::prelude::*;

verus! {

/// What the operating system said of a filesystem call that failed.
#[derive(Debug, Clone, PartialEq, Eq)]
pub struct IoFailure {
    /// The system's error code, if it gave one.
    pub code: Option<i32>,
    /// Whether the call was refused for want of permission.
    pub permission_denied: bool,
    /// The system's own description of the failure.
    pub message: String,
}

/// A failure of the organizer.
#[derive(Debug, Clone, PartialEq, Eq)]
pub enum AppError {
    /// A filesystem call failed for a reason that has no kind of its own.
    Io(IoFailure),
    /// A file name could not be parsed.
    ParseError(String),
    /// The source directory does not exist.
    SourceNotFound(String),
    /// The destination root does not exist.
    TargetNotFound(String),
    /// A hard link was asked for across two filesystems.
    CrossDeviceLink,
    /// Hard links are refused or not supported where one was asked for.
    HardLinkNotSupported,
    /// An operation on one file failed.
    FileOperation {
        /// The file it was made on.
        path: String,
        /// What went wrong.
        message: String,
    },
}

/// Result of an operation of the organizer.
pub type Result<T> = std::result::Result<T, AppError>;

} // verus!
