//! The error taxonomy of the retrieval pipeline.
//!
//! Directory-level and pattern-level failures are fatal to a whole request and
//! are surfaced as one of these values; per-file parse failures are recovered
//! locally by the orchestrator and never reach a caller.

use vstd::prelude::*;

verus! {

/// A fatal pipeline error, carrying a machine-readable code and a
/// human-readable description.
#[derive(Debug)]
pub enum Error {
    /// An input/output failure, described by the underlying error's text.
    IoError(String),
    /// Any other structural failure (missing home directory, bad pattern,
    /// unrecognized period keyword), described in plain words.
    Other(String),
}

impl Error {
    /// The machine-readable code of this error.
    pub fn code(&self) -> (r: &'static str)
        ensures
            self matches Error::IoError(_) ==> r@ == "IoError"@,
            self matches Error::Other(_) ==> r@ == "Other"@,
    {
        match self {
            Error::IoError(_) => "IoError",
            Error::Other(_) => "Other",
        }
    }

    /// Conversion from plain message text: the `Other` error carrying it.
    pub fn from_message(text: &str) -> (r: Error)
        ensures
            r matches Error::Other(m) && m@ == text@,
    {
        Error::Other(text.to_owned())
    }

    /// The human-readable description of this error.
    pub fn description(&self) -> (r: String)
        ensures
            self matches Error::IoError(m) ==> r@ == m@,
            self matches Error::Other(m) ==> r@ == m@,
    {
        match self {
            Error::IoError(m) => m.clone(),
            Error::Other(m) => m.clone(),
        }
    }
}

} // verus!
