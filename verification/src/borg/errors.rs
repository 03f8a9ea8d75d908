//! The failures of archive creation and the line that reports one.

use crate::borg::engine::EngineFailure;
use crate::util::{LogLevel, LogLine};
use vstd::prelude::*;

verus! {

/// The system clock stands before the Unix epoch.
#[derive(Clone, Copy, Debug, PartialEq, Eq, Structural)]
pub struct ClockError;

/// Why no archive was created.
#[derive(Debug)]
pub enum ArchiveError {
    /// No name could be derived for the archive: the system clock stands
    /// before the Unix epoch.
    EpochTimeError,
    /// The engine failed to create the archive.
    ArchiveCreateError(EngineFailure),
}

/// The line that reports `archive_error`: a clock failure is a fixed note of
/// level info, an engine failure is the engine's full description at level
/// error.
pub open spec fn archive_error_line(archive_error: ArchiveError) -> (LogLevel, Seq<char>) {
    match archive_error {
        ArchiveError::EpochTimeError => (
            LogLevel::Info,
            "Error retriving SystemTime since 1970!"@,
        ),
        ArchiveError::ArchiveCreateError(failure) => (LogLevel::Error, failure.detail@),
    }
}

/// Writes the line that reports `archive_error`.
pub fn parse_archive_error(archive_error: ArchiveError) -> (line: LogLine)
    ensures
        line@ == archive_error_line(archive_error),
{
    match archive_error {
        ArchiveError::EpochTimeError => LogLine::new(
            LogLevel::Info,
            String::from_str("Error retriving SystemTime since 1970!"),
        ),
        ArchiveError::ArchiveCreateError(failure) => LogLine::new(LogLevel::Error, failure.detail),
    }
}

} // verus!
