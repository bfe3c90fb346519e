//! Tests for the deterministic 3x3 temporal mosaic composer.

use local_guard::model::Frame;
use local_guard::mosaic::{compose_temporal_mosaic, MosaicError};

fn pixel_frames(count: usize) -> Vec<Frame> {
    let mut frames = Vec::new();
    for index in 0..count {
        frames.push(
            Frame::new("display-1", 1, 1, index as u64, vec![index as u8, 0, 0, 255])
                .expect("frame should be valid"),
        );
    }
    frames
}

#[test]
fn compose_places_first_and_last_tiles_correctly() {
    let mut frames = Vec::new();
    for index in 0..9 {
        frames.push(
            Frame::new("display-1", 1, 1, index as u64, vec![index as u8, 0, 0, 255])
                .expect("frame should be valid"),
        );
    }

    let mosaic = compose_temporal_mosaic(&frames).expect("mosaic should compose");
    assert_eq!(mosaic.width, 3);
    assert_eq!(mosaic.height, 3);

    // First tile should remain in top-left pixel.
    assert_eq!(mosaic.rgba[0], 0);

    // Last tile should end up bottom-right pixel.
    let bottom_right_offset = ((3 * 3) - 1) * 4;
    assert_eq!(mosaic.rgba[bottom_right_offset], 8);
}

#[test]
fn compose_maps_every_tile_row_major() {
    let frames = pixel_frames(9);
    let mosaic = compose_temporal_mosaic(&frames).expect("mosaic should compose");
    for t in 0..9usize {
        let row = t / 3;
        let col = t % 3;
        let offset = (row * 3 + col) * 4;
        assert_eq!(mosaic.rgba[offset], t as u8);
        assert_eq!(mosaic.rgba[offset + 3], 255);
    }
}

#[test]
fn compose_rejects_wrong_frame_counts() {
    for count in [8usize, 10] {
        let frames = pixel_frames(count);
        match compose_temporal_mosaic(&frames) {
            Err(MosaicError::InvalidFrameCount { expected, actual }) => {
                assert_eq!(expected, 9);
                assert_eq!(actual, count);
            }
            other => panic!("expected a frame-count error, got {other:?}"),
        }
    }
}

#[test]
fn compose_rejects_mixed_geometry() {
    let mut frames = pixel_frames(8);
    frames.push(Frame::new("display-1", 2, 1, 8, vec![0; 8]).expect("frame should be valid"));
    assert!(matches!(
        compose_temporal_mosaic(&frames),
        Err(MosaicError::GeometryMismatch)
    ));
}

#[test]
fn compose_copies_multi_pixel_rows() {
    let mut frames = Vec::new();
    for index in 0..9u8 {
        // 2x2 tiles with one colour per frame.
        frames.push(
            Frame::new("display-1", 2, 2, index as u64, vec![index; 16])
                .expect("frame should be valid"),
        );
    }
    let mosaic = compose_temporal_mosaic(&frames).expect("mosaic should compose");
    assert_eq!(mosaic.width, 6);
    assert_eq!(mosaic.height, 6);
    assert_eq!(mosaic.rgba.len(), 6 * 6 * 4);
    // Pixel (y, x) of the mosaic belongs to tile (y / 2) * 3 + (x / 2).
    for y in 0..6usize {
        for x in 0..6usize {
            let tile = (y / 2) * 3 + (x / 2);
            let offset = (y * 6 + x) * 4;
            assert_eq!(mosaic.rgba[offset], tile as u8, "pixel ({y},{x})");
        }
    }
}
