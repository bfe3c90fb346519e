//! Tests for orchestration helpers: scheduling, display selection,
//! payload assembly, redaction, the kill switch and status projection.

use local_guard::capture::DisplayInfo;
use local_guard::model::Frame;
use local_guard::pipeline::{
    app_version, batch_to_payload, capture_enabled_from_setting, project_runtime_status,
    redact_sensitive, schedule_capture, select_display, AppError,
};
use local_guard::ui::{StageStatus, UiAuthState, UiState};

fn fixture_frames() -> Vec<Frame> {
    let mut frames = Vec::new();
    for index in 0..9_u64 {
        let value = index as u8;
        frames.push(
            Frame::new("display-1", 1, 1, 1_000 + index, vec![value, 0, 0, 255])
                .expect("frame fixture should be valid"),
        );
    }
    frames
}

#[test]
fn capture_scheduler_tests_generates_one_hz_schedule() {
    let times = schedule_capture(1, 1_000, 3).expect("schedule should be generated");
    assert_eq!(times, vec![1_000, 2_000, 3_000]);
}

#[test]
fn scheduler_rejects_zero_fps_and_saturates_near_the_end_of_time() {
    assert!(matches!(schedule_capture(0, 0, 3), Err(AppError::Capture(_))));
    let times = schedule_capture(1, u64::MAX - 1_500, 3).expect("schedule should be generated");
    assert_eq!(times, vec![u64::MAX - 1_500, u64::MAX - 500, u64::MAX]);
}

#[test]
fn display_selection_tests_selects_matching_display() {
    let displays = vec![
        DisplayInfo {
            id: "display-a".to_string(),
            name: "A".to_string(),
            width: 1920,
            height: 1080,
        },
        DisplayInfo {
            id: "display-b".to_string(),
            name: "B".to_string(),
            width: 1280,
            height: 720,
        },
    ];

    let selected = select_display(&displays, "display-b").expect("display should be found");
    assert_eq!(selected.id, "display-b");
    assert!(select_display(&displays, "display-c").is_none());
}

#[test]
fn batch_to_payload_integration_tests_produces_one_payload_for_nine_frames() {
    let frames = fixture_frames();
    let payload = batch_to_payload(&frames, "session-xyz").expect("payload should build");

    assert_eq!(payload.metadata.frame_count, 9);
    assert_eq!(payload.mosaic_width, 3);
    assert_eq!(payload.mosaic_height, 3);
    assert_eq!(payload.metadata.screen_id, "display-1");
}

#[test]
fn batch_to_payload_reports_mosaic_errors_before_metadata_errors() {
    let frames = fixture_frames()[..8].to_vec();
    assert!(matches!(
        batch_to_payload(&frames, "session"),
        Err(AppError::Mosaic(_))
    ));
    let frames = fixture_frames();
    assert!(matches!(batch_to_payload(&frames, "  "), Err(AppError::Core(_))));
}

#[test]
fn log_redaction_tests_removes_obvious_secret_markers() {
    let raw = "authorization=Bearer abc123";
    let redacted = redact_sensitive(raw);

    assert!(redacted.contains("<redacted>"));
    assert!(!redacted.contains("abc123"));
}

#[test]
fn privacy_guardrail_tests_avoid_password_leakage_in_logs() {
    let raw = "password=supersecret";
    let redacted = redact_sensitive(raw);
    assert!(!redacted.contains("supersecret"));
    assert!(redacted.contains("<redacted>"));
}

#[test]
fn redaction_is_case_insensitive_and_keeps_prefixes() {
    let redacted = redact_sensitive("ctx=9 TOKEN value");
    assert_eq!(redacted, "ctx=9 token=<redacted>");
    assert_eq!(redact_sensitive("nothing secret here"), "nothing secret here");
}

#[test]
fn kill_switch_disables_capture_for_documented_values() {
    assert!(capture_enabled_from_setting(None));
    assert!(!capture_enabled_from_setting(Some("0")));
    assert!(!capture_enabled_from_setting(Some("false")));
    assert!(!capture_enabled_from_setting(Some(" OFF ")));
    assert!(capture_enabled_from_setting(Some("true")));
    assert!(capture_enabled_from_setting(Some("anything else")));
}

#[test]
fn runtime_status_projection_tests_reflects_ui_state() {
    let mut state = UiState::new("v0.1.0");
    state.auth = UiAuthState::Authenticated;
    state.set_consent(true);
    state.select_display("display-1");
    state.capture = StageStatus::Running;
    state.network = StageStatus::Healthy;
    state.upload = StageStatus::Degraded;
    state.analysis_status = "Medium risk".to_string();

    let snapshot = project_runtime_status(&state, true);
    assert!(snapshot.capture_allowed);
    assert_eq!(snapshot.capture, "Running");
    assert_eq!(snapshot.network, "Healthy");
    assert_eq!(snapshot.upload, "Degraded");
    assert_eq!(snapshot.analysis, "Medium risk");
}

#[test]
fn kill_switch_overrides_runtime_status_gates() {
    let mut state = UiState::new(app_version());
    state.auth = UiAuthState::Authenticated;
    state.set_consent(true);
    state.select_display("display-1");
    let snapshot = project_runtime_status(&state, false);
    assert!(!snapshot.capture_allowed);
}
