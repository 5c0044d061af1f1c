//! The error taxonomy of a run. Configuration and listing failures are
//! fatal; a post or file failure is recoverable — it is logged, the item
//! is skipped, and the run continues. Observed cancellation is a clean
//! early termination, not a fault.

use vstd::prelude::*;

verus! {

/// A fatal startup failure: no work starts after one of these.
#[derive(Debug, PartialEq)]
pub enum ConfigError {
    /// A whitelist or blacklist pattern did not compile; the offending
    /// pattern text is carried.
    InvalidPattern { pattern: String },
    /// The configured maximum concurrency is not positive.
    InvalidConcurrency,
    /// The minimum-publish-date value did not parse; the text is carried.
    InvalidDate { text: String },
}

/// A failure of one file transfer: the file is skipped, its siblings and
/// the containing post are unaffected.
#[derive(Debug, PartialEq)]
pub struct TransferError {
    /// The URL whose transfer failed.
    pub url: String,
    /// What the underlying request or write reported.
    pub cause: String,
}

/// A failure of one post: the post is skipped, pagination continues.
#[derive(Debug, PartialEq)]
pub struct PostError {
    /// The id of the post that failed.
    pub post_id: String,
    /// What the metadata fetch reported.
    pub cause: String,
}

/// Any way a batch run can end other than a clean completion.
#[derive(Debug, PartialEq)]
pub enum RunError {
    /// Fatal before any work starts.
    Config(ConfigError),
    /// A page fetch failed: fatal to the batch run, no partial-catalogue
    /// recovery is attempted. Carries the offset that failed and the
    /// transport or status cause.
    Listing { offset: usize, cause: String },
    /// One post failed: recoverable.
    Post(PostError),
    /// One file transfer failed: recoverable.
    Transfer(TransferError),
    /// Cancellation was observed: a clean early termination.
    Cancelled,
}

impl RunError {
    /// The skip-or-abort policy: only configuration and listing failures
    /// unwind past their scope; a post or file failure is absorbed where
    /// it happened, and cancellation is not a fault at all.
    pub fn is_fatal(&self) -> (r: bool)
        ensures
            r <==> (self is Config || self is Listing),
    {
        match self {
            RunError::Config(_) => true,
            RunError::Listing { .. } => true,
            RunError::Post(_) => false,
            RunError::Transfer(_) => false,
            RunError::Cancelled => false,
        }
    }
}

} // verus!
