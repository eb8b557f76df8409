use vstd::prelude::*;

use crate::error::UploadError;

verus! {

/// How a chunk write must treat the target file before writing its bytes.
#[derive(Debug, Clone, Copy, PartialEq, Eq, Structural)]
pub struct ChunkPlan {
    /// Discard the target's prior content (create it empty).
    pub truncate: bool,
    /// Create the session marker beside the target.
    pub create_marker: bool,
    /// Byte position from the start of the file where the chunk's bytes go.
    pub seek: u64,
}

/// A chunk at offset zero starts a fresh upload: the target is truncated and
/// the session marker is created. Any other offset resumes: the target is
/// opened without truncation (created if missing) and the marker is untouched.
pub fn plan_chunk(offset: u64) -> (r: ChunkPlan)
    ensures
        r.truncate == (offset == 0),
        r.create_marker == (offset == 0),
        r.seek == offset,
{
    let fresh = offset == 0;
    ChunkPlan { truncate: fresh, create_marker: fresh, seek: offset }
}

/// What a status query reports for one target.
#[derive(Debug, Clone, Copy, PartialEq, Eq, Structural)]
pub struct StatusReport {
    /// Bytes already on disk that a client may resume after; zero when nothing is resumable.
    pub size: u64,
    /// Whether the session marker exists.
    pub in_progress: bool,
}

/// The size that a status query reports, given the target's length on disk
/// (`None` when it does not exist) and whether its session marker exists.
pub open spec fn reported_size(file_len: Option<u64>, marker_present: bool) -> u64 {
    match file_len {
        Some(n) => if marker_present { n } else { 0 },
        None => 0,
    }
}

/// The status policy: only a target with an active session reports its
/// length; a complete, orphaned or missing target reports zero.
pub fn status_report(file_len: Option<u64>, marker_present: bool) -> (r: StatusReport)
    ensures
        r.size == reported_size(file_len, marker_present),
        r.in_progress == marker_present,
{
    let size: u64 = match file_len {
        Some(n) => if marker_present { n } else { 0 },
        None => 0,
    };
    StatusReport { size, in_progress: marker_present }
}

/// Finalizing succeeds exactly when the session marker exists; the marker is
/// then to be removed. Without a marker (a second finalize, or one without a
/// start) it fails with `NotFound`.
pub fn finalize_outcome(marker_present: bool) -> (r: Result<(), UploadError>)
    ensures
        marker_present ==> r == Ok::<(), UploadError>(()),
        !marker_present ==> r == Err::<(), UploadError>(UploadError::NotFound),
{
    if marker_present {
        Ok(())
    } else {
        Err(UploadError::NotFound)
    }
}

} // verus!
