//! Tests for capture configuration and the synthetic backend.

use local_guard::capture::{
    scheduled_capture_times, CaptureBackend, CaptureConfig, CaptureError, DisplayInfo,
    SyntheticCaptureBackend,
};

#[test]
fn synthetic_backend_generates_frames() {
    let mut backend = SyntheticCaptureBackend::new();
    let frame = backend
        .capture_frame("display-1", 42)
        .expect("capture should work");
    assert_eq!(frame.width, 4);
    assert_eq!(frame.height, 4);
    assert_eq!(frame.captured_at_ms, 42);
}

#[test]
fn synthetic_backend_rejects_unknown_displays() {
    let mut backend = SyntheticCaptureBackend::new();
    assert!(matches!(
        backend.capture_frame("display-9", 0),
        Err(CaptureError::UnknownDisplay(_))
    ));
}

#[test]
fn synthetic_backend_lists_custom_displays() {
    let backend = SyntheticCaptureBackend::with_displays(vec![DisplayInfo {
        id: "left".to_string(),
        name: "Left".to_string(),
        width: 2,
        height: 3,
    }]);
    let displays = backend.list_displays();
    assert_eq!(displays.len(), 1);
    assert_eq!(displays[0].id, "left");

    let mut backend = backend;
    let frame = backend.capture_frame("left", 7).expect("capture should work");
    assert_eq!(frame.rgba.len(), 2 * 3 * 4);
    assert_eq!(frame.screen_id, "left");
}

#[test]
fn synthetic_backend_takes_the_first_matching_display() {
    let mut backend = SyntheticCaptureBackend::with_displays(vec![
        DisplayInfo {
            id: "twin".to_string(),
            name: "First".to_string(),
            width: 1,
            height: 1,
        },
        DisplayInfo {
            id: "twin".to_string(),
            name: "Second".to_string(),
            width: 2,
            height: 2,
        },
    ]);
    let frame = backend.capture_frame("twin", 0).expect("capture should work");
    assert_eq!(frame.width, 1);
    assert_eq!(frame.height, 1);
}

#[test]
fn synthetic_fill_advances_with_the_sequence() {
    let mut backend = SyntheticCaptureBackend::new();
    let first = backend.capture_frame("display-1", 0).expect("capture should work");
    let second = backend.capture_frame("display-1", 1).expect("capture should work");
    assert!(first.rgba.iter().all(|&b| b == 1));
    assert!(second.rgba.iter().all(|&b| b == 2));
}

#[test]
fn capture_config_validates_fps() {
    assert!(matches!(CaptureConfig::new(0), Err(CaptureError::InvalidFps)));
    let config = CaptureConfig::new(4).expect("fps should be valid");
    assert_eq!(config.interval_ms(), 250);
}

#[test]
fn schedule_spacing_follows_the_interval() {
    let config = CaptureConfig::new(2).expect("fps should be valid");
    let times = scheduled_capture_times(config, 100, 4);
    assert_eq!(times, vec![100, 600, 1_100, 1_600]);
}
