//! Tests for the core data model: frames, the bounded batch, metadata and
//! tile ordering.

use local_guard::model::{
    build_metadata, deterministic_tile_order, CoreError, Frame, FrameBatch,
};

fn frame(screen: &str, ts: u64) -> Frame {
    Frame::new(screen, 2, 2, ts, vec![1; 16]).expect("frame should be valid")
}

#[test]
fn metadata_integrity_tests_include_required_fields() {
    let mut frames = Vec::new();
    for timestamp in [100_u64, 200, 300] {
        frames.push(
            Frame::new("display-a", 2, 2, timestamp, vec![1; 16]).expect("frame should be valid"),
        );
    }

    let metadata = build_metadata(&frames, "session-123").expect("metadata should build");
    assert_eq!(metadata.start_timestamp_ms, 100);
    assert_eq!(metadata.end_timestamp_ms, 300);
    assert_eq!(metadata.screen_id, "display-a");
    assert_eq!(metadata.source_width, 2);
    assert_eq!(metadata.source_height, 2);
    assert_eq!(metadata.session_id, "session-123");
    assert_eq!(metadata.frame_count, 3);
}

#[test]
fn mosaic_ordering_tests_enforces_row_major_temporal_order() {
    let order = deterministic_tile_order(9).expect("ordering should be generated");
    assert_eq!(order, vec![0, 1, 2, 3, 4, 5, 6, 7, 8]);
}

#[test]
fn tile_order_rejects_zero_batch_size() {
    assert!(matches!(
        deterministic_tile_order(0),
        Err(CoreError::InvalidBatchCapacity)
    ));
}

#[test]
fn batch_fills_and_emits_at_capacity() {
    let mut batch = FrameBatch::new(9).expect("capacity should be valid");
    for i in 0..8_u64 {
        let emitted = batch.push_frame(frame("display-1", i)).expect("push should succeed");
        assert!(emitted.is_none());
    }
    assert_eq!(batch.len(), 8);
    assert!(!batch.is_empty());

    let emitted = batch
        .push_frame(frame("display-1", 8))
        .expect("push should succeed")
        .expect("ninth push should emit the batch");
    assert_eq!(emitted.len(), 9);
    assert_eq!(batch.len(), 0);
    assert!(batch.is_empty());
    assert_eq!(batch.capacity(), 9);
}

#[test]
fn batch_rejects_display_switch_without_mutation() {
    let mut batch = FrameBatch::new(9).expect("capacity should be valid");
    batch.push_frame(frame("display-1", 0)).expect("seed push should succeed");

    let result = batch.push_frame(frame("display-2", 1));
    assert!(matches!(result, Err(CoreError::BatchInvariantViolation(_))));
    assert_eq!(batch.len(), 1);
}

#[test]
fn batch_rejects_zero_capacity() {
    assert!(matches!(FrameBatch::new(0), Err(CoreError::InvalidBatchCapacity)));
}

#[test]
fn frame_rejects_wrong_buffer_length() {
    let result = Frame::new("display-1", 2, 2, 0, vec![0; 15]);
    match result {
        Err(CoreError::InvalidFrameShape { expected, actual }) => {
            assert_eq!(expected, 16);
            assert_eq!(actual, 15);
        }
        other => panic!("expected a shape error, got {other:?}"),
    }
}

#[test]
fn metadata_rejects_empty_set_and_blank_session() {
    let empty: Vec<Frame> = Vec::new();
    assert!(matches!(build_metadata(&empty, "session"), Err(CoreError::EmptyFrameSet)));

    let frames = vec![frame("display-1", 1)];
    assert!(matches!(build_metadata(&frames, "  "), Err(CoreError::InvalidSessionId)));
}

#[test]
fn metadata_rejects_mixed_displays() {
    let frames = vec![frame("display-1", 1), frame("display-2", 2)];
    assert!(matches!(
        build_metadata(&frames, "session"),
        Err(CoreError::BatchInvariantViolation(_))
    ));
}
