use vstd::prelude::*;

use crate::error::UploadError;
use crate::target::{
    after_chunk, after_finalize, finalize_result, status_size, untouched, write_at, TargetState,
};

verus! {

/// The total number of bytes in a sequence of chunks.
pub open spec fn total_len(chunks: Seq<Seq<u8>>) -> nat
    decreases chunks.len(),
{
    if chunks.len() == 0 {
        0
    } else {
        total_len(chunks.drop_last()) + chunks.last().len()
    }
}

/// The chunks laid end to end.
pub open spec fn joined(chunks: Seq<Seq<u8>>) -> Seq<u8>
    decreases chunks.len(),
{
    if chunks.len() == 0 {
        Seq::empty()
    } else {
        joined(chunks.drop_last()) + chunks.last()
    }
}

/// The state after the chunks are written one after another, each at the
/// offset where the previous one ended (the first at offset zero).
pub open spec fn write_in_sequence(s: TargetState, chunks: Seq<Seq<u8>>) -> TargetState
    decreases chunks.len(),
{
    if chunks.len() == 0 {
        s
    } else {
        let prefix = chunks.drop_last();
        after_chunk(write_in_sequence(s, prefix), total_len(prefix), chunks.last())
    }
}

/// A status query on a target that was never touched reports size zero and
/// no upload in progress.
pub proof fn lemma_fresh_start()
    ensures
        status_size(untouched()) == 0,
        !untouched().marker,
{
}

/// A chunk written at offset zero discards whatever the target held before:
/// afterwards the content is exactly that chunk, an upload is in progress,
/// and the reported size is the chunk's length.
pub proof fn lemma_offset_zero_resets(s: TargetState, data: Seq<u8>)
    ensures
        after_chunk(s, 0, data).file == Some(data),
        after_chunk(s, 0, data).marker,
        status_size(after_chunk(s, 0, data)) == data.len(),
{
}

/// Only a chunk at offset zero creates the session marker, and no chunk
/// removes it; only finalizing does, and finalizing leaves the content as
/// it was.
pub proof fn lemma_marker_lifecycle(s: TargetState, offset: nat, data: Seq<u8>)
    ensures
        offset == 0 ==> after_chunk(s, offset, data).marker,
        offset != 0 ==> after_chunk(s, offset, data).marker == s.marker,
        !after_finalize(s).marker,
        after_finalize(s).file == s.file,
{
}

/// Writing at the end of the content appends.
proof fn lemma_write_at_end(content: Seq<u8>, data: Seq<u8>)
    ensures
        write_at(content, content.len(), data) == content + data,
{
    assert(write_at(content, content.len(), data) =~= content + data);
}

/// The chunks laid end to end are as long as their lengths added up.
pub proof fn lemma_joined_len(chunks: Seq<Seq<u8>>)
    ensures
        joined(chunks).len() == total_len(chunks),
    decreases chunks.len(),
{
    if chunks.len() > 0 {
        lemma_joined_len(chunks.drop_last());
    }
}

/// Chunks written one after another, the first at offset zero and each next
/// one where the previous ended, leave the target holding exactly the chunks
/// laid end to end, with the upload in progress; a status query then reports
/// the sum of their lengths, whatever the target held before.
pub proof fn lemma_sequential_resume(s: TargetState, chunks: Seq<Seq<u8>>)
    requires
        chunks.len() > 0,
    ensures
        write_in_sequence(s, chunks) == (TargetState { file: Some(joined(chunks)), marker: true }),
        status_size(write_in_sequence(s, chunks)) == total_len(chunks),
    decreases chunks.len(),
{
    let prefix = chunks.drop_last();
    lemma_joined_len(chunks);
    if prefix.len() == 0 {
        assert(joined(prefix) == Seq::<u8>::empty());
        assert(joined(chunks) =~= chunks.last());
    } else {
        lemma_sequential_resume(s, prefix);
        lemma_joined_len(prefix);
        let before = write_in_sequence(s, prefix);
        if total_len(prefix) == 0 {
            assert(joined(prefix) =~= Seq::<u8>::empty());
            assert(joined(chunks) =~= chunks.last());
        } else {
            lemma_write_at_end(joined(prefix), chunks.last());
        }
    }
}

/// In the laid-out chunks, the bytes of each chunk stand at the range where
/// the chunks before it end.
pub proof fn lemma_joined_ranges(chunks: Seq<Seq<u8>>, k: int)
    requires
        0 <= k < chunks.len(),
    ensures
        total_len(chunks.take(k)) + chunks[k].len() <= joined(chunks).len(),
        joined(chunks).subrange(
            total_len(chunks.take(k)) as int,
            (total_len(chunks.take(k)) + chunks[k].len()) as int,
        ) == chunks[k],
    decreases chunks.len(),
{
    let prefix = chunks.drop_last();
    lemma_joined_len(chunks);
    lemma_joined_len(prefix);
    if k == chunks.len() - 1 {
        assert(chunks.take(k) =~= prefix);
        assert(joined(chunks).subrange(total_len(prefix) as int, joined(chunks).len() as int)
            =~= chunks[k]);
    } else {
        lemma_joined_ranges(prefix, k);
        assert(prefix.take(k) =~= chunks.take(k));
        assert(joined(chunks).subrange(
            total_len(chunks.take(k)) as int,
            (total_len(chunks.take(k)) + chunks[k].len()) as int,
        ) =~= joined(prefix).subrange(
            total_len(chunks.take(k)) as int,
            (total_len(chunks.take(k)) + chunks[k].len()) as int,
        ));
    }
}

/// A successful finalize leaves the content on disk as it was, yet a status
/// query afterwards reports size zero and no upload in progress.
pub proof fn lemma_finalize_gates_status(s: TargetState)
    requires
        s.marker,
    ensures
        finalize_result(s) == Ok::<(), UploadError>(()),
        after_finalize(s).file == s.file,
        !after_finalize(s).marker,
        status_size(after_finalize(s)) == 0,
{
}

/// Finalizing twice in a row fails the second time with `NotFound`.
pub proof fn lemma_double_finalize_fails(s: TargetState)
    ensures
        finalize_result(after_finalize(s)) == Err::<(), UploadError>(UploadError::NotFound),
{
}

/// An upload started with `first` at offset zero and not finalized reports
/// its length and an upload in progress; after `second` is written at that
/// length, it reports both lengths together and holds both chunks in order.
pub proof fn lemma_resume_after_status(s: TargetState, first: Seq<u8>, second: Seq<u8>)
    ensures
        status_size(after_chunk(s, 0, first)) == first.len(),
        after_chunk(s, 0, first).marker,
        status_size(after_chunk(after_chunk(s, 0, first), first.len(), second)) == first.len()
            + second.len(),
        after_chunk(after_chunk(s, 0, first), first.len(), second).file == Some(first + second),
        after_chunk(after_chunk(s, 0, first), first.len(), second).marker,
{
    if first.len() == 0 {
        assert(first + second =~= second);
    } else {
        lemma_write_at_end(first, second);
    }
}

} // verus!
