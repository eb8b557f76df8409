use vstd::prelude::*;

verus! {

/// The ways a request of the upload protocol can fail.
#[derive(Debug, Clone, Copy, PartialEq, Eq, Structural)]
pub enum UploadError {
    /// Finalizing a target that has no active upload session.
    NotFound,
    /// A malformed offset, or a room or file name that is not a safe path segment.
    InvalidInput,
}

} // verus!
