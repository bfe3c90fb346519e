//! Tests for the payload JSON codec and upload staging.

use base64::Engine;
use local_guard::model::{BatchMetadata, CoreError, MosaicPayload};
use local_guard::staging::{rgba_to_rgb, stage_payload_for_upload};

fn fixture_payload() -> MosaicPayload {
    MosaicPayload {
        schema_version: "v1".to_string(),
        metadata: BatchMetadata {
            start_timestamp_ms: 1,
            end_timestamp_ms: 9,
            screen_id: "display-a".to_string(),
            source_width: 2,
            source_height: 2,
            session_id: "session-abc".to_string(),
            frame_count: 9,
        },
        mosaic_width: 6,
        mosaic_height: 6,
        mosaic_rgba: vec![9; 6 * 6 * 4],
    }
}

#[test]
fn payload_codec_tests_round_trip_json() {
    let payload = fixture_payload();

    let encoded = payload.to_json_bytes().expect("encoding should succeed");
    let decoded = MosaicPayload::from_json_bytes(&encoded).expect("decoding should succeed");
    assert_eq!(decoded, payload);
}

#[test]
fn encoded_payload_is_readable_json_text() {
    let payload = fixture_payload();
    let encoded = payload.to_json_bytes().expect("encoding should succeed");
    let text = String::from_utf8(encoded).expect("document should be UTF-8");
    assert!(text.starts_with("{\"schema_version\":\"v1\""));
    assert!(text.contains("\"screen_id\":\"display-a\""));
    assert!(text.contains("\"frame_count\":9"));
    assert!(text.ends_with("]}"));
}

#[test]
fn decoder_rejects_malformed_documents() {
    assert!(matches!(
        MosaicPayload::from_json_bytes(b"{"),
        Err(CoreError::Codec(_))
    ));
    assert!(matches!(
        MosaicPayload::from_json_bytes(&[0xff, 0xfe]),
        Err(CoreError::Codec(_))
    ));
    assert!(matches!(
        MosaicPayload::from_json_bytes(b"{\"schema_version\":\"v1\"}"),
        Err(CoreError::Codec(_))
    ));
}

#[test]
fn decoder_accepts_reordered_members_and_escapes() {
    let raw = br#"{
        "mosaic_rgba": [1, 2, 3, 4],
        "mosaic_height": 1,
        "mosaic_width": 1,
        "metadata": {
            "frame_count": 1,
            "session_id": "sA",
            "source_height": 1,
            "source_width": 1,
            "screen_id": "d",
            "end_timestamp_ms": 2,
            "start_timestamp_ms": 1
        },
        "schema_version": "v1"
    }"#;
    let decoded = MosaicPayload::from_json_bytes(raw).expect("decoding should succeed");
    assert_eq!(decoded.metadata.session_id, "sA");
    assert_eq!(decoded.mosaic_rgba, vec![1, 2, 3, 4]);
}

#[test]
fn rgba_to_rgb_drops_alpha_only() {
    let rgba = vec![1, 2, 3, 255, 4, 5, 6, 128];
    let rgb = rgba_to_rgb(&rgba).expect("conversion should succeed");
    assert_eq!(rgb, vec![1, 2, 3, 4, 5, 6]);
    assert!(rgba_to_rgb(&vec![1, 2, 3]).is_err());
}

#[test]
fn staging_rejects_zero_dimensions_and_mismatched_buffers() {
    let mut payload = fixture_payload();
    payload.mosaic_width = 0;
    payload.mosaic_height = 0;
    payload.mosaic_rgba = Vec::new();
    assert!(stage_payload_for_upload(&payload).is_err());

    let mut payload = fixture_payload();
    payload.mosaic_rgba.pop();
    assert!(stage_payload_for_upload(&payload).is_err());
}

#[test]
fn staged_payload_embeds_the_jpeg_as_base64() {
    let payload = fixture_payload();
    let staged = stage_payload_for_upload(&payload).expect("staging should succeed");

    // The compressed image is a real transformation, not the input bytes.
    assert!(!staged.jpeg.is_empty());
    assert_ne!(staged.jpeg, payload.mosaic_rgba);
    // JPEG documents start with the SOI marker.
    assert_eq!(&staged.jpeg[..2], &[0xff, 0xd8]);

    let document = String::from_utf8(staged.document.clone()).expect("document should be UTF-8");
    let expected_b64 = base64::engine::general_purpose::STANDARD.encode(&staged.jpeg);
    assert!(document.contains(&format!("\"mosaic_jpeg_base64\":\"{expected_b64}\"")));
    assert!(document.contains("\"mosaic_format\":\"jpeg\""));
    assert!(document.contains("\"mosaic_jpeg_quality\":9"));
}
