//! The ways a bootstrap run can end.
use vstd::prelude::*;

verus! {

/// Why the policy file could not be turned into records.
#[derive(Debug)]
pub enum LoadError {
    /// No file exists at the configured path.
    NotFound,
    /// The file's extension is missing or is not exactly `json`.
    UnsupportedFormat,
    /// The file exists but could not be opened; carries the cause.
    OpenFailure(String),
    /// The file opened but its contents could not be read as text.
    ReadFailure(String),
    /// The text is not a JSON array of objects; carries the decoder's message.
    DecodeFailure(String),
}

/// A failure that the policy store reports from a replace.
#[derive(Debug)]
pub struct StoreError {
    pub message: String,
}

/// How one run of the bootstrap step ended. Every failure ends here too: none
/// is raised to the caller, each is only reported.
#[derive(Debug)]
pub enum Outcome {
    /// No path was configured: nothing was read and the store was not called.
    Disabled,
    /// The file could not be loaded; the store was not called.
    LoadFailed(LoadError),
    /// The store refused the records; it keeps what it had.
    ApplyFailed(StoreError),
    /// The store now holds this many records.
    Applied(usize),
}

impl Outcome {
    /// Whether the outcome is reported at error severity.
    pub open spec fn is_error(&self) -> bool {
        self is LoadFailed || self is ApplyFailed
    }

    /// Whether this outcome is a failure that must be logged as an error.
    pub fn is_failure(&self) -> (r: bool)
        ensures
            r == self.is_error(),
    {
        match self {
            Outcome::LoadFailed(_) => true,
            Outcome::ApplyFailed(_) => true,
            _ => false,
        }
    }
}

} // verus!
