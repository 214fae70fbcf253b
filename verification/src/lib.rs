//! Recognises episodic video files named after the bracketed release-group
//! convention and plans their transfer into one directory per title.

pub mod batch;
pub mod disk;
pub mod error;
pub mod organizer;
pub mod parser;
pub mod paths;
pub mod text;

pub use batch::{FallbackMode, Summary, Verdict};
pub use error::{AppError, IoFailure, Result};
pub use organizer::{
    FileOrganizer, FsAction, FsOutcome, OperationMode, Platform, Step, Transfer,
};
pub use parser::{AnimeFileInfo, FilenameParser};
