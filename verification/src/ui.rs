//! UI-facing runtime state: login, consent, display selection and pipeline
//! stage statuses, plus the projection of risk signals into a status text.

use vstd::prelude::*;
use crate::analysis::{RiskLevel, UiRiskSignal};

verus! {

/// UI projection of the authentication state.
#[derive(Debug, Clone, Copy, PartialEq, Eq, Structural)]
pub enum UiAuthState {
    /// User is not authenticated.
    Unauthenticated,
    /// Valid authenticated session.
    Authenticated,
    /// Session expired and requires reauth.
    ReauthRequired,
}

/// Generic stage status used for the capture, network and upload flow.
#[derive(Debug, Clone, Copy, PartialEq, Eq, Structural)]
pub enum StageStatus {
    /// Stage has not started.
    Idle,
    /// Stage is currently running.
    Running,
    /// Stage completed successfully.
    Healthy,
    /// Stage encountered a non-fatal error.
    Degraded,
}

/// The display name of a stage status.
pub open spec fn spec_stage_name(s: StageStatus) -> Seq<char> {
    match s {
        StageStatus::Idle => "Idle"@,
        StageStatus::Running => "Running"@,
        StageStatus::Healthy => "Healthy"@,
        StageStatus::Degraded => "Degraded"@,
    }
}

impl StageStatus {
    /// Returns the stage status as display text.
    pub fn name(&self) -> (r: String)
        ensures
            r@ == spec_stage_name(*self),
    {
        match self {
            StageStatus::Idle => String::from_str("Idle"),
            StageStatus::Running => String::from_str("Running"),
            StageStatus::Healthy => String::from_str("Healthy"),
            StageStatus::Degraded => String::from_str("Degraded"),
        }
    }
}

/// Relative ordering of risk levels for status aggregation; `Unknown` ranks
/// lowest.
pub open spec fn spec_risk_priority(level: RiskLevel) -> int {
    match level {
        RiskLevel::Low => 1,
        RiskLevel::Medium => 2,
        RiskLevel::High => 3,
        RiskLevel::Critical => 4,
        RiskLevel::Unknown => 0,
    }
}

/// Returns the aggregation priority of a risk level.
pub fn risk_priority(level: RiskLevel) -> (r: u8)
    ensures
        r == spec_risk_priority(level),
{
    match level {
        RiskLevel::Low => 1,
        RiskLevel::Medium => 2,
        RiskLevel::High => 3,
        RiskLevel::Critical => 4,
        RiskLevel::Unknown => 0,
    }
}

/// The highest-priority level among the first `n` signals.
pub open spec fn spec_max_level(signals: Seq<UiRiskSignal>, n: int) -> RiskLevel
    recommends
        1 <= n <= signals.len(),
    decreases n,
{
    if n <= 1 {
        signals[0].level
    } else {
        let rest = spec_max_level(signals, n - 1);
        if spec_risk_priority(signals[n - 1].level) > spec_risk_priority(rest) {
            signals[n - 1].level
        } else {
            rest
        }
    }
}

/// The status text shown for an aggregated risk level.
pub open spec fn spec_risk_text(level: RiskLevel) -> Seq<char> {
    match level {
        RiskLevel::Low => "Low risk"@,
        RiskLevel::Medium => "Medium risk"@,
        RiskLevel::High => "High risk"@,
        RiskLevel::Critical => "Critical risk"@,
        RiskLevel::Unknown => "Unknown risk"@,
    }
}

/// Aggregate UI runtime state.
#[derive(Debug, Clone)]
pub struct UiState {
    /// App version string.
    pub version: String,
    /// Current auth status.
    pub auth: UiAuthState,
    /// Whether the user explicitly granted capture consent.
    pub consent_granted: bool,
    /// Selected display id.
    pub selected_display: Option<String>,
    /// Capture pipeline stage status.
    pub capture: StageStatus,
    /// Network stage status.
    pub network: StageStatus,
    /// Upload stage status.
    pub upload: StageStatus,
    /// Human-readable analysis status.
    pub analysis_status: String,
}

impl UiState {
    /// Creates the default UI state: unauthenticated, no consent, no
    /// display selected, all stages idle.
    pub fn new(version: &str) -> (r: UiState)
        ensures
            r.version@ == version@,
            r.auth == UiAuthState::Unauthenticated,
            !r.consent_granted,
            r.selected_display is None,
            r.capture == StageStatus::Idle,
            r.network == StageStatus::Idle,
            r.upload == StageStatus::Idle,
            r.analysis_status@ == "No analysis yet"@,
    {
        UiState {
            version: version.to_owned(),
            auth: UiAuthState::Unauthenticated,
            consent_granted: false,
            selected_display: None,
            capture: StageStatus::Idle,
            network: StageStatus::Idle,
            upload: StageStatus::Idle,
            analysis_status: String::from_str("No analysis yet"),
        }
    }

    /// Sets the display selection.
    pub fn select_display(&mut self, display_id: &str)
        ensures
            final(self).selected_display matches Some(d) && d@ == display_id@,
            final(self).version == old(self).version,
            final(self).auth == old(self).auth,
            final(self).consent_granted == old(self).consent_granted,
            final(self).capture == old(self).capture,
            final(self).network == old(self).network,
            final(self).upload == old(self).upload,
            final(self).analysis_status == old(self).analysis_status,
    {
        self.selected_display = Some(display_id.to_owned());
    }

    /// Sets the consent flag.
    pub fn set_consent(&mut self, consent_granted: bool)
        ensures
            final(self).consent_granted == consent_granted,
            final(self).version == old(self).version,
            final(self).auth == old(self).auth,
            final(self).selected_display == old(self).selected_display,
            final(self).capture == old(self).capture,
            final(self).network == old(self).network,
            final(self).upload == old(self).upload,
            final(self).analysis_status == old(self).analysis_status,
    {
        self.consent_granted = consent_granted;
    }

    /// Capture may start exactly when the user is authenticated, consent is
    /// granted, and a display is selected.
    pub open spec fn spec_can_start_capture(&self) -> bool {
        self.auth == UiAuthState::Authenticated && self.consent_granted && self.selected_display
            is Some
    }

    /// Returns `true` when the user may start capture.
    pub fn can_start_capture(&self) -> (r: bool)
        ensures
            r == self.spec_can_start_capture(),
    {
        self.auth == UiAuthState::Authenticated && self.consent_granted
            && self.selected_display.is_some()
    }

    /// Updates the analysis status text from risk signals: the highest
    /// level by priority wins; no signals reads "No risks reported".
    pub fn apply_risk_signals(&mut self, signals: &Vec<UiRiskSignal>)
        ensures
            signals@.len() == 0 ==> final(self).analysis_status@ == "No risks reported"@,
            signals@.len() > 0 ==> final(self).analysis_status@ == spec_risk_text(
                spec_max_level(signals@, signals@.len() as int),
            ),
            final(self).version == old(self).version,
            final(self).auth == old(self).auth,
            final(self).consent_granted == old(self).consent_granted,
            final(self).selected_display == old(self).selected_display,
            final(self).capture == old(self).capture,
            final(self).network == old(self).network,
            final(self).upload == old(self).upload,
    {
        if signals.len() == 0 {
            self.analysis_status = String::from_str("No risks reported");
            return ;
        }
        let mut highest = signals[0].level;
        let mut i: usize = 1;
        while i < signals.len()
            invariant
                1 <= i <= signals@.len(),
                highest == spec_max_level(signals@, i as int),
            decreases signals@.len() - i,
        {
            if risk_priority(signals[i].level) > risk_priority(highest) {
                highest = signals[i].level;
            }
            i = i + 1;
        }
        self.analysis_status = match highest {
            RiskLevel::Low => String::from_str("Low risk"),
            RiskLevel::Medium => String::from_str("Medium risk"),
            RiskLevel::High => String::from_str("High risk"),
            RiskLevel::Critical => String::from_str("Critical risk"),
            RiskLevel::Unknown => String::from_str("Unknown risk"),
        };
    }
}

} // verus!
