//! Error taxonomy for the compression core.
//!
//! Every failure a job can end in is a variant here.  Variants that carry a
//! `String` hold a short cause text (a path, a captured stderr payload, or an
//! OS error description); rendering them for the user is left to callers.

use vstd::prelude::*;

verus! {

/// Terminal failure of a compression job.
#[derive(Debug, Clone, PartialEq, Eq)]
pub enum CompressoError {
    /// Input path or directory is missing.
    FileNotFound(String),
    /// Wrong file type or malformed path.
    InvalidInput(String),
    /// Destination exists without overwrite permission, or is a forbidden
    /// system location.
    InvalidOutput(String),
    /// The external encoder binary cannot be located or failed verification.
    FfmpegNotFound,
    /// The subprocess exited non-zero; the payload is its captured stderr.
    FfmpegError(String),
    /// User-requested abort.
    Cancelled,
    /// The subprocess exited non-zero with no stderr payload.
    CorruptedVideo,
    /// Filesystem error, wrapping the underlying OS error text.
    Io(String),
}

} // verus!
