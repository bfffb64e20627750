use vstd::prelude::*;

verus! {

/// An input/output failure, carried as the message the operating system gave.
#[derive(Debug, PartialEq, Eq)]
pub struct IoError(pub String);

/// Everything that can go wrong while configuring, planning or executing.
#[derive(Debug, PartialEq)]
pub enum BackedUpError {
    /// The directory to plan for could not be listed.
    ReadDirError { source: IoError, path: String },
    /// The directory to clean up is not writable.
    PathPermissionError(String),
    /// Every retention count is zero.
    NoSlot,
    /// The timestamp grammar is not a valid regular expression.
    InvalidRegex(regex::Error),
    /// The timestamp grammar lacks one of the named groups `year`, `month`, `day`.
    MissingCaptureGroup(&'static str),
}

} // verus!
