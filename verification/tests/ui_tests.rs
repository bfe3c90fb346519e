//! Tests for the UI runtime state and risk projection.

use local_guard::analysis::{RiskLevel, UiRiskSignal};
use local_guard::ui::{UiAuthState, UiState};

#[test]
fn capture_gate_requires_auth_consent_and_display() {
    let mut state = UiState::new("v0.1.0");
    assert!(!state.can_start_capture());

    state.auth = UiAuthState::Authenticated;
    state.set_consent(true);
    state.select_display("display-1");

    assert!(state.can_start_capture());
}

#[test]
fn consent_gate_tests_requires_explicit_consent_before_capture() {
    let mut state = UiState::new("v0.1.0");
    state.auth = UiAuthState::Authenticated;
    state.select_display("display-1");
    assert!(!state.can_start_capture());

    state.set_consent(true);
    assert!(state.can_start_capture());
}

fn signal(category: &str, level: RiskLevel) -> UiRiskSignal {
    UiRiskSignal {
        category: category.to_string(),
        level,
    }
}

#[test]
fn risk_signals_project_the_highest_level() {
    let mut state = UiState::new("v0.1.0");

    state.apply_risk_signals(&Vec::new());
    assert_eq!(state.analysis_status, "No risks reported");

    state.apply_risk_signals(&vec![
        signal("a", RiskLevel::Low),
        signal("b", RiskLevel::Critical),
        signal("c", RiskLevel::Medium),
    ]);
    assert_eq!(state.analysis_status, "Critical risk");

    state.apply_risk_signals(&vec![signal("a", RiskLevel::Unknown)]);
    assert_eq!(state.analysis_status, "Unknown risk");

    state.apply_risk_signals(&vec![
        signal("a", RiskLevel::Unknown),
        signal("b", RiskLevel::Low),
    ]);
    assert_eq!(state.analysis_status, "Low risk");
}
