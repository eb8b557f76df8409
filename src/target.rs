use vstd::prelude::*;

use crate::error::UploadError;
use crate::protocol::{finalize_outcome, plan_chunk, status_report, StatusReport};

verus! {

/// The observable state of one upload target: its content, if the file
/// exists, and whether its session marker exists.
pub ghost struct TargetState {
    pub file: Option<Seq<u8>>,
    pub marker: bool,
}

/// A target that nobody has touched: no file, no marker.
pub open spec fn untouched() -> TargetState {
    TargetState { file: None, marker: false }
}

/// The content of `content` after `data` is written at byte position
/// `offset`: the file grows to cover the written range, a gap between the
/// old end and `offset` reads as zero bytes, and bytes outside the written
/// range keep their old values.
pub open spec fn write_at(content: Seq<u8>, offset: nat, data: Seq<u8>) -> Seq<u8> {
    let end = offset + data.len();
    let len = if content.len() >= end { content.len() } else { end };
    Seq::new(
        len as nat,
        |i: int|
            if offset <= i < end {
                data[i - offset]
            } else if i < content.len() {
                content[i]
            } else {
                0u8
            },
    )
}

/// The state after a chunk `data` is written at `offset`. Offset zero starts
/// afresh: prior content is discarded and the marker is created. Any other
/// offset writes into the existing content (an empty file if there was none)
/// and leaves the marker as it was.
pub open spec fn after_chunk(s: TargetState, offset: nat, data: Seq<u8>) -> TargetState {
    if offset == 0 {
        TargetState { file: Some(data), marker: true }
    } else {
        let base = match s.file {
            Some(c) => c,
            None => Seq::empty(),
        };
        TargetState { file: Some(write_at(base, offset, data)), marker: s.marker }
    }
}

/// The size a status query reports: the content's length while the marker
/// exists, zero otherwise.
pub open spec fn status_size(s: TargetState) -> nat {
    match s.file {
        Some(c) => if s.marker { c.len() } else { 0 },
        None => 0,
    }
}

/// What finalizing returns: success exactly when the marker exists.
pub open spec fn finalize_result(s: TargetState) -> Result<(), UploadError> {
    if s.marker {
        Ok(())
    } else {
        Err(UploadError::NotFound)
    }
}

/// The state after finalizing: the marker is gone, the content is untouched.
pub open spec fn after_finalize(s: TargetState) -> TargetState {
    TargetState { file: s.file, marker: false }
}

/// An upload target held in memory, following the protocol that the server
/// applies to a file and its session marker on disk.
pub struct MemoryTarget {
    file: Option<Vec<u8>>,
    marker: bool,
}

impl View for MemoryTarget {
    type V = TargetState;

    closed spec fn view(&self) -> TargetState {
        TargetState {
            file: match self.file {
                Some(v) => Some(v@),
                None => None,
            },
            marker: self.marker,
        }
    }
}

impl MemoryTarget {
    /// A target with no file and no marker.
    pub fn new() -> (r: MemoryTarget)
        ensures
            r@ == untouched(),
    {
        MemoryTarget { file: None, marker: false }
    }

    /// Whether the session marker exists.
    pub fn in_progress(&self) -> (r: bool)
        ensures
            r == self@.marker,
    {
        self.marker
    }

    /// A copy of the target's content, `None` when the file does not exist.
    pub fn contents(&self) -> (r: Option<Vec<u8>>)
        ensures
            match r {
                Some(v) => self@.file == Some(v@),
                None => self@.file is None,
            },
    {
        match &self.file {
            Some(v) => Some(v.clone()),
            None => None,
        }
    }

    /// Writes the chunk `data` at byte position `offset`, as the chunk
    /// writer does to a file on disk.
    pub fn write_chunk(&mut self, offset: u64, data: &[u8])
        requires
            offset + data@.len() <= usize::MAX,
        ensures
            final(self)@ == after_chunk(old(self)@, offset as nat, data@),
    {
        let plan = plan_chunk(offset);
        let mut content: Vec<u8> = if plan.truncate {
            Vec::new()
        } else {
            match self.file.take() {
                Some(v) => v,
                None => Vec::new(),
            }
        };
        let ghost base = content@;
        let start = plan.seek as usize;
        while content.len() < start
            invariant
                start == offset,
                base.len() <= content.len(),
                content.len() <= if base.len() >= start { base.len() } else { start as nat },
                forall|i: int|
                    0 <= i < content.len() ==> #[trigger] content@[i] == if i < base.len() {
                        base[i]
                    } else {
                        0u8
                    },
            decreases start - content.len(),
        {
            content.push(0u8);
        }
        let mut j: usize = 0;
        while j < data.len()
            invariant
                start == offset,
                start + data@.len() <= usize::MAX,
                j <= data@.len(),
                content.len() == if base.len() >= start + j {
                    base.len()
                } else {
                    (start + j) as nat
                },
                content.len() >= start,
                forall|i: int|
                    0 <= i < content.len() ==> #[trigger] content@[i] == if start <= i < start
                        + j {
                        data@[i - start]
                    } else if i < base.len() {
                        base[i]
                    } else {
                        0u8
                    },
            decreases data@.len() - j,
        {
            let at = start + j;
            if at < content.len() {
                content.set(at, data[j]);
            } else {
                content.push(data[j]);
            }
            j = j + 1;
        }
        proof {
            assert(content@ =~= write_at(base, offset as nat, data@));
            if offset == 0 {
                assert(content@ =~= data@);
            }
        }
        self.file = Some(content);
        if plan.create_marker {
            self.marker = true;
        }
    }

    /// Reports the target's status: its length while an upload is in
    /// progress, zero otherwise.
    pub fn status(&self) -> (r: StatusReport)
        ensures
            r.size as nat == status_size(self@),
            r.in_progress == self@.marker,
    {
        let len: Option<u64> = match &self.file {
            Some(v) => Some(v.len() as u64),
            None => None,
        };
        status_report(len, self.marker)
    }

    /// Ends the upload session by removing the marker; fails with
    /// `NotFound` when there is none. The content is kept either way.
    pub fn finalize(&mut self) -> (r: Result<(), UploadError>)
        ensures
            r == finalize_result(old(self)@),
            final(self)@ == after_finalize(old(self)@),
    {
        let r = finalize_outcome(self.marker);
        if r.is_ok() {
            self.marker = false;
        }
        r
    }
}

} // verus!
