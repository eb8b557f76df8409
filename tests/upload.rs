use roomshare::error::UploadError;
use roomshare::protocol::{finalize_outcome, plan_chunk, status_report, ChunkPlan, StatusReport};
use roomshare::target::MemoryTarget;

fn bytes(n: usize, seed: u8) -> Vec<u8> {
    (0..n).map(|i| (i as u8).wrapping_mul(7).wrapping_add(seed)).collect()
}

#[test]
fn fresh_target_reports_nothing() {
    let t = MemoryTarget::new();
    assert_eq!(t.status(), StatusReport { size: 0, in_progress: false });
    assert_eq!(t.contents(), None);
}

#[test]
fn offset_zero_discards_prior_content() {
    let mut t = MemoryTarget::new();
    t.write_chunk(0, &bytes(40, 1));
    t.write_chunk(40, &bytes(20, 2));
    t.write_chunk(0, &bytes(5, 3));
    assert_eq!(t.status(), StatusReport { size: 5, in_progress: true });
    assert_eq!(t.contents(), Some(bytes(5, 3)));
}

#[test]
fn offset_zero_resets_a_finalized_target() {
    let mut t = MemoryTarget::new();
    t.write_chunk(0, &bytes(10, 1));
    assert_eq!(t.finalize(), Ok(()));
    t.write_chunk(0, &bytes(3, 9));
    assert_eq!(t.status(), StatusReport { size: 3, in_progress: true });
}

#[test]
fn sequential_chunks_sum_and_keep_content() {
    let chunks = vec![bytes(7, 1), bytes(13, 2), bytes(1, 3), bytes(30, 4)];
    let mut t = MemoryTarget::new();
    let mut at: u64 = 0;
    for c in &chunks {
        t.write_chunk(at, c);
        at += c.len() as u64;
    }
    assert_eq!(t.status(), StatusReport { size: 51, in_progress: true });
    let all: Vec<u8> = chunks.concat();
    assert_eq!(t.contents(), Some(all.clone()));
    assert_eq!(&all[7..20], &bytes(13, 2)[..]);
}

#[test]
fn finalize_gates_status() {
    let mut t = MemoryTarget::new();
    t.write_chunk(0, &bytes(64, 5));
    assert_eq!(t.finalize(), Ok(()));
    assert_eq!(t.status(), StatusReport { size: 0, in_progress: false });
    assert_eq!(t.contents().map(|c| c.len()), Some(64));
}

#[test]
fn double_finalize_fails() {
    let mut t = MemoryTarget::new();
    t.write_chunk(0, &bytes(4, 5));
    assert_eq!(t.finalize(), Ok(()));
    assert_eq!(t.finalize(), Err(UploadError::NotFound));
}

#[test]
fn finalize_without_start_fails() {
    let mut t = MemoryTarget::new();
    assert_eq!(t.finalize(), Err(UploadError::NotFound));
}

#[test]
fn resume_after_status() {
    let mut t = MemoryTarget::new();
    t.write_chunk(0, &bytes(30, 1));
    assert_eq!(t.status(), StatusReport { size: 30, in_progress: true });
    t.write_chunk(30, &bytes(12, 2));
    assert_eq!(t.status(), StatusReport { size: 42, in_progress: true });
}

#[test]
fn end_to_end_demo_video() {
    let first = bytes(100, 11);
    let second = bytes(50, 77);
    let mut t = MemoryTarget::new();
    t.write_chunk(0, &first);
    assert_eq!(t.status().size, 100);
    t.write_chunk(100, &second);
    assert_eq!(t.status().size, 150);
    assert_eq!(t.finalize(), Ok(()));
    assert_eq!(t.status().size, 0);
    let content = t.contents().unwrap();
    assert_eq!(content.len(), 150);
    assert_eq!(&content[..100], &first[..]);
    assert_eq!(&content[100..], &second[..]);
}

#[test]
fn resume_on_missing_file_fills_gap_with_zeros() {
    let mut t = MemoryTarget::new();
    t.write_chunk(4, &[9, 8]);
    assert_eq!(t.contents(), Some(vec![0, 0, 0, 0, 9, 8]));
    assert!(!t.in_progress());
    assert_eq!(t.status(), StatusReport { size: 0, in_progress: false });
}

#[test]
fn overlapping_write_overwrites_in_place() {
    let mut t = MemoryTarget::new();
    t.write_chunk(0, &[1, 2, 3, 4, 5]);
    t.write_chunk(1, &[7, 7]);
    assert_eq!(t.contents(), Some(vec![1, 7, 7, 4, 5]));
    t.write_chunk(4, &[6, 6, 6]);
    assert_eq!(t.contents(), Some(vec![1, 7, 7, 4, 6, 6, 6]));
}

#[test]
fn empty_chunk_at_offset_zero_starts_session() {
    let mut t = MemoryTarget::new();
    t.write_chunk(0, &[]);
    assert_eq!(t.status(), StatusReport { size: 0, in_progress: true });
    assert_eq!(t.contents(), Some(vec![]));
}

#[test]
fn plan_for_fresh_and_resumed_chunks() {
    assert_eq!(plan_chunk(0), ChunkPlan { truncate: true, create_marker: true, seek: 0 });
    assert_eq!(plan_chunk(4096), ChunkPlan { truncate: false, create_marker: false, seek: 4096 });
}

#[test]
fn status_policy() {
    assert_eq!(status_report(None, false), StatusReport { size: 0, in_progress: false });
    assert_eq!(status_report(None, true), StatusReport { size: 0, in_progress: true });
    assert_eq!(status_report(Some(77), false), StatusReport { size: 0, in_progress: false });
    assert_eq!(status_report(Some(77), true), StatusReport { size: 77, in_progress: true });
}

#[test]
fn finalize_policy() {
    assert_eq!(finalize_outcome(true), Ok(()));
    assert_eq!(finalize_outcome(false), Err(UploadError::NotFound));
}
