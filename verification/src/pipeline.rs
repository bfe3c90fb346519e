//! Orchestration helpers: capture gates, scheduling, display selection,
//! batch-to-payload assembly, log redaction, the kill-switch rule, and the
//! runtime status projection.

use vstd::prelude::*;
use crate::analysis::{AnalysisContractError, UiRiskSignal, map_risk_signals,
    parse_analysis_response, plain_text, spec_min_analysis_doc};
use crate::auth::{AuthError, AuthState, AuthStateMachine};
use crate::capture::{CaptureConfig, CaptureError, DisplayInfo, display_index_from,
    scheduled_capture_times};
use crate::model::{CoreError, Frame, MosaicPayload, build_metadata, homogeneous, spec_metadata_ok};
use crate::mosaic::{MosaicError, compose_temporal_mosaic, mosaic_dims_overflow, mosaic_complete,
    same_geometry};
use crate::num::{sat_add_u64, sat_mul_u64};
use crate::text::{spec_find, spec_is_blank, spec_lower, spec_trim, find_first, lower_chars,
    str_chars, trim_chars, chars_eq_str, lemma_find_from_bounds};
use crate::ui::{UiState, spec_stage_name};

verus! {

/// App integration error type.
#[derive(Debug)]
pub enum AppError {
    /// Auth subsystem error.
    Auth(AuthError),
    /// Capture subsystem error.
    Capture(CaptureError),
    /// Core model error.
    Core(CoreError),
    /// Mosaic composition error.
    Mosaic(MosaicError),
    /// Analysis parse or mapping error.
    Analysis(AnalysisContractError),
}

/// Consolidated runtime status snapshot for simple UI projection.
#[derive(Debug, Clone)]
pub struct RuntimeStatus {
    /// Whether the auth, consent, display and kill-switch gates currently
    /// allow capture.
    pub capture_allowed: bool,
    /// Capture subsystem state as display text.
    pub capture: String,
    /// Network subsystem state as display text.
    pub network: String,
    /// Upload subsystem state as display text.
    pub upload: String,
    /// Analysis status text.
    pub analysis: String,
}

/// Returns the app version string.
pub fn app_version() -> (r: &'static str)
    ensures
        r@ == "v0.1.0"@,
{
    "v0.1.0"
}

/// Returns `true` when the auth state machine allows capture at `now_ms`.
pub fn auth_allows_capture(machine: &AuthStateMachine, now_ms: u64) -> (r: bool)
    ensures
        r == (machine.spec_state() matches AuthState::Authenticated(token) && now_ms
            < token.expires_at_ms),
{
    machine.can_capture(now_ms)
}

/// Schedules deterministic capture times at the configured FPS; fails when
/// the FPS is zero.
pub fn schedule_capture(fps: u32, start_ms: u64, frame_count: usize) -> (r: Result<
    Vec<u64>,
    AppError,
>)
    ensures
        fps == 0 ==> (r matches Err(e) && e matches AppError::Capture(c) && c
            matches CaptureError::InvalidFps),
        fps > 0 ==> (r matches Ok(times) && times@.len() == frame_count && forall|i: int|
            0 <= i < frame_count ==> times@[i] == sat_add_u64(
                start_ms,
                sat_mul_u64((1000 as u64) / (fps as u64), i as u64),
            )),
{
    let config = match CaptureConfig::new(fps) {
        Ok(config) => config,
        Err(e) => { return Err(AppError::Capture(e)) },
    };
    Ok(scheduled_capture_times(config, start_ms, frame_count))
}

/// Selects the first display with the given id from an enumerated display
/// list, returning a copy of its metadata.
pub fn select_display(displays: &Vec<DisplayInfo>, display_id: &str) -> (r: Option<DisplayInfo>)
    ensures
        display_index_from(displays@, display_id@, 0) matches Some(ix) ==> (r matches Some(d)
            && d.id@ == displays@[ix].id@ && d.name@ == displays@[ix].name@ && d.width
            == displays@[ix].width && d.height == displays@[ix].height),
        display_index_from(displays@, display_id@, 0) is None ==> r is None,
{
    let mut i: usize = 0;
    while i < displays.len()
        invariant
            i <= displays@.len(),
            display_index_from(displays@, display_id@, 0) == display_index_from(
                displays@,
                display_id@,
                i as int,
            ),
        decreases displays@.len() - i,
    {
        if crate::text::str_eq(displays[i].id.as_str(), display_id) {
            return Some(
                DisplayInfo {
                    id: displays[i].id.clone(),
                    name: displays[i].name.clone(),
                    width: displays[i].width,
                    height: displays[i].height,
                },
            );
        }
        i = i + 1;
    }
    None
}

/// Builds the upload payload from one complete frame batch: the 3x3 mosaic
/// plus metadata derived from the frames, under the v1 schema tag.
pub fn batch_to_payload(frames: &Vec<Frame>, session_id: &str) -> (r: Result<
    MosaicPayload,
    AppError,
>)
    requires
        forall|i: int| 0 <= i < frames@.len() ==> (#[trigger] frames@[i]).wf(),
    ensures
        frames@.len() != 9 ==> (r matches Err(e) && e matches AppError::Mosaic(m) && (m
            matches MosaicError::InvalidFrameCount { expected, actual } && expected == 9 && actual
            == frames@.len())),
        frames@.len() == 9 && !same_geometry(frames@) ==> (r matches Err(e) && e matches
            AppError::Mosaic(m) && m matches MosaicError::GeometryMismatch),
        frames@.len() == 9 && same_geometry(frames@) && mosaic_dims_overflow(
            frames@[0].width,
            frames@[0].height,
        ) ==> (r matches Err(e) && e matches AppError::Mosaic(m) && m
            matches MosaicError::Overflow),
        frames@.len() == 9 && same_geometry(frames@) && !mosaic_dims_overflow(
            frames@[0].width,
            frames@[0].height,
        ) && spec_is_blank(session_id@) ==> (r matches Err(e) && e matches AppError::Core(c) && c
            matches CoreError::InvalidSessionId),
        frames@.len() == 9 && same_geometry(frames@) && !mosaic_dims_overflow(
            frames@[0].width,
            frames@[0].height,
        ) && !spec_is_blank(session_id@) && !homogeneous(frames@) ==> (r matches Err(e) && e
            matches AppError::Core(c) && c.is_batch_invariant_violation()),
        frames@.len() == 9 && same_geometry(frames@) && !mosaic_dims_overflow(
            frames@[0].width,
            frames@[0].height,
        ) && !spec_is_blank(session_id@) && homogeneous(frames@) ==> (r matches Ok(p)
            && p.schema_version@ == "v1"@ && spec_metadata_ok(p.metadata, frames@, session_id@)
            && p.mosaic_width == 3 * frames@[0].width && p.mosaic_height == 3 * frames@[0].height
            && p.mosaic_rgba@.len() == 36 * frames@[0].width * frames@[0].height
            && mosaic_complete(
            p.mosaic_rgba@,
            frames@,
            frames@[0].width as int,
            frames@[0].height as int,
        )),
{
    let mosaic = match compose_temporal_mosaic(frames) {
        Ok(mosaic) => mosaic,
        Err(e) => { return Err(AppError::Mosaic(e)) },
    };
    let metadata = match build_metadata(frames, session_id) {
        Ok(metadata) => metadata,
        Err(e) => { return Err(AppError::Core(e)) },
    };
    Ok(
        MosaicPayload {
            schema_version: String::from_str("v1"),
            metadata,
            mosaic_width: mosaic.width,
            mosaic_height: mosaic.height,
            mosaic_rgba: mosaic.rgba,
        },
    )
}

/// Parses a raw analysis response and maps it to UI risk signals: each
/// reported category yields one signal with its name preserved verbatim
/// and its severity mapped through the fixed bands.
///
/// The mapping half is exactly specified on `map_risk_signals`; the decode
/// half carries the same contract scope as `parse_analysis_response`,
/// including proven success on the minimal document shape.
pub fn parse_analysis(raw: &str) -> (r: Result<Vec<UiRiskSignal>, AppError>)
    ensures
        r matches Err(e) ==> e matches AppError::Analysis(_),
        forall|sv: Seq<char>, rid: Seq<char>|
            plain_text(sv) && plain_text(rid) && !crate::text::spec_is_blank(sv)
                && !crate::text::spec_is_blank(rid) && raw@ == #[trigger] spec_min_analysis_doc(
                sv,
                rid,
            ) ==> (r matches Ok(signals) && signals@.len() == 0),
{
    let parsed = match parse_analysis_response(raw) {
        Ok(parsed) => parsed,
        Err(e) => { return Err(AppError::Analysis(e)) },
    };
    Ok(map_risk_signals(&parsed))
}

/// The redaction of one key: everything from the key's first
/// (case-insensitive) occurrence on is replaced by `key=<redacted>`.
pub open spec fn spec_redact_key(s: Seq<char>, key: Seq<char>) -> Seq<char> {
    match spec_find(spec_lower(s), key) {
        Some(p) => s.subrange(0, p) + key + "=<redacted>"@,
        None => s,
    }
}

/// Redacts one secret marker: when the key occurs (case-insensitively), the
/// output keeps the text before it and replaces the rest with
/// `key=<redacted>`.
pub fn redact_key_value(input: &str, key: &str) -> (r: String)
    ensures
        r@ == spec_redact_key(input@, key@),
{
    let lowered = lower_chars(input);
    let key_chars = str_chars(key);
    match find_first(&lowered, &key_chars) {
        Some(p) => {
            proof {
                lemma_find_from_bounds(lowered@, key_chars@, 0);
            }
            let prefix = input.substring_char(0, p);
            let mut out = prefix.to_owned();
            out.append(key);
            out.append("=<redacted>");
            out
        },
        None => input.to_owned(),
    }
}

/// The full redaction applied to log-safe output, over the four secret
/// markers in order.
pub open spec fn spec_redact_sensitive(s: Seq<char>) -> Seq<char> {
    spec_redact_key(
        spec_redact_key(spec_redact_key(spec_redact_key(s, "password"@), "token"@), "authorization"@),
        "bearer"@,
    )
}

/// Redacts common secret markers (`password`, `token`, `authorization`,
/// `bearer`) in log-safe output.
pub fn redact_sensitive(input: &str) -> (r: String)
    ensures
        r@ == spec_redact_sensitive(input@),
{
    let step1 = redact_key_value(input, "password");
    let step2 = redact_key_value(step1.as_str(), "token");
    let step3 = redact_key_value(step2.as_str(), "authorization");
    redact_key_value(step3.as_str(), "bearer")
}

/// The kill-switch rule on a setting value: absent enables capture; a value
/// whose trimmed, lower-cased form is `0`, `false` or `off` disables it;
/// anything else enables it.
pub open spec fn spec_capture_enabled(value: Option<Seq<char>>) -> bool {
    match value {
        Option::None => true,
        Option::Some(s) => {
            let normalized = spec_trim(spec_lower(s));
            !(normalized == "0"@ || normalized == "false"@ || normalized == "off"@)
        },
    }
}

/// Applies the kill-switch rule to the runtime setting value, if any.
pub fn capture_enabled_from_setting(value: Option<&str>) -> (r: bool)
    ensures
        r == spec_capture_enabled(
            match value {
                Option::None => Option::<Seq<char>>::None,
                Option::Some(s) => Option::Some(s@),
            },
        ),
{
    match value {
        None => true,
        Some(s) => {
            let lowered = lower_chars(s);
            let normalized = trim_chars(&lowered);
            !(chars_eq_str(&normalized, "0") || chars_eq_str(&normalized, "false") || chars_eq_str(
                &normalized,
                "off",
            ))
        },
    }
}

/// Projects the UI runtime state into a flat status snapshot; capture is
/// allowed only when the UI gates hold and the kill switch enables it.
pub fn project_runtime_status(state: &UiState, capture_enabled: bool) -> (r: RuntimeStatus)
    ensures
        r.capture_allowed == (state.spec_can_start_capture() && capture_enabled),
        r.capture@ == spec_stage_name(state.capture),
        r.network@ == spec_stage_name(state.network),
        r.upload@ == spec_stage_name(state.upload),
        r.analysis@ == state.analysis_status@,
{
    RuntimeStatus {
        capture_allowed: state.can_start_capture() && capture_enabled,
        capture: state.capture.name(),
        network: state.network.name(),
        upload: state.upload.name(),
        analysis: state.analysis_status.clone(),
    }
}

} // verus!
