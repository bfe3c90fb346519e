//! Control-thread decision logic: the start gate, the "at most one tick in
//! flight" scheduling rule, event application, and auth synchronisation.
//! The UI shell runs timers and channels; every decision is taken here.

use vstd::prelude::*;
use crate::auth::{AuthState, AuthStateMachine, SessionToken};
use crate::ui::{StageStatus, UiAuthState, UiState};
use crate::worker::{WorkerCommand, WorkerEvent};

verus! {

/// Control-side counters mirrored into the status display.
#[derive(Debug, Clone)]
pub struct ControlCounters {
    /// Whether the capture scheduler is running.
    pub capturing: bool,
    /// Whether a tick command is awaiting its completion event.
    pub tick_in_flight: bool,
    /// Frames buffered in the worker's current batch.
    pub frames_buffered: usize,
    /// Total frames captured in this run.
    pub current_frame_number: u64,
    /// Total batches prepared in this run.
    pub prepared_batches: u64,
}

impl ControlCounters {
    /// Fresh counters: nothing running, nothing buffered.
    pub fn new() -> (r: ControlCounters)
        ensures
            !r.capturing,
            !r.tick_in_flight,
            r.frames_buffered == 0,
            r.current_frame_number == 0,
            r.prepared_batches == 0,
    {
        ControlCounters {
            capturing: false,
            tick_in_flight: false,
            frames_buffered: 0,
            current_frame_number: 0,
            prepared_batches: 0,
        }
    }
}

/// Outcome of the start-capture gate.
#[derive(Debug, Clone, Copy, PartialEq, Eq, Structural)]
pub enum StartDecision {
    /// The runtime kill switch disables capture.
    KillSwitchBlocked,
    /// Capture is already running; the request is ignored.
    AlreadyRunning,
    /// Auth, consent or display selection is missing.
    GatesNotMet,
    /// Capture may start.
    Start,
}

/// Decides whether capture may start, in this order: the kill switch
/// blocks everything; a running capture is left alone; then the auth,
/// consent and display gates must all hold.
pub fn decide_start(capture_enabled: bool, capturing: bool, ui: &UiState) -> (r: StartDecision)
    ensures
        !capture_enabled ==> r == StartDecision::KillSwitchBlocked,
        capture_enabled && capturing ==> r == StartDecision::AlreadyRunning,
        capture_enabled && !capturing && !ui.spec_can_start_capture() ==> r
            == StartDecision::GatesNotMet,
        capture_enabled && !capturing && ui.spec_can_start_capture() ==> r == StartDecision::Start,
{
    if !capture_enabled {
        StartDecision::KillSwitchBlocked
    } else if capturing {
        StartDecision::AlreadyRunning
    } else if !ui.can_start_capture() {
        StartDecision::GatesNotMet
    } else {
        StartDecision::Start
    }
}

/// Resets the control state for a fresh capture run and marks the capture
/// stage as running.
pub fn begin_capture(counters: &mut ControlCounters, ui: &mut UiState)
    ensures
        final(counters).capturing,
        !final(counters).tick_in_flight,
        final(counters).frames_buffered == 0,
        final(counters).current_frame_number == 0,
        final(counters).prepared_batches == 0,
        final(ui).capture == StageStatus::Running,
        final(ui).network == StageStatus::Idle,
        final(ui).upload == StageStatus::Idle,
        final(ui).version == old(ui).version,
        final(ui).auth == old(ui).auth,
        final(ui).consent_granted == old(ui).consent_granted,
        final(ui).selected_display == old(ui).selected_display,
        final(ui).analysis_status == old(ui).analysis_status,
{
    counters.capturing = true;
    counters.tick_in_flight = false;
    counters.frames_buffered = 0;
    counters.current_frame_number = 0;
    counters.prepared_batches = 0;
    ui.capture = StageStatus::Running;
    ui.network = StageStatus::Idle;
    ui.upload = StageStatus::Idle;
}

/// Stops the capture run and returns the capture stage to idle.
pub fn end_capture(counters: &mut ControlCounters, ui: &mut UiState)
    ensures
        !final(counters).capturing,
        !final(counters).tick_in_flight,
        final(counters).frames_buffered == 0,
        final(counters).current_frame_number == old(counters).current_frame_number,
        final(counters).prepared_batches == old(counters).prepared_batches,
        final(ui).capture == StageStatus::Idle,
        final(ui).network == old(ui).network,
        final(ui).upload == old(ui).upload,
        final(ui).version == old(ui).version,
        final(ui).auth == old(ui).auth,
        final(ui).consent_granted == old(ui).consent_granted,
        final(ui).selected_display == old(ui).selected_display,
        final(ui).analysis_status == old(ui).analysis_status,
{
    counters.capturing = false;
    counters.tick_in_flight = false;
    counters.frames_buffered = 0;
    ui.capture = StageStatus::Idle;
}

/// Plan for one scheduler tick.
#[derive(Debug, Clone)]
pub enum TickPlan {
    /// Capture is not running; the tick is ignored.
    NotCapturing,
    /// The session is no longer authenticated; capture must stop.
    SessionInvalid,
    /// No display is selected; capture must stop.
    NoDisplay,
    /// The previous tick has not completed yet; this tick is skipped
    /// rather than queued.
    InFlightSkip,
    /// No session token is held; capture must stop.
    NoSession,
    /// Issue this capture command to the worker.
    Issue(WorkerCommand),
}

/// Decides what one scheduler tick does, enforcing "at most one tick in
/// flight": a tick arriving while the previous one is unacknowledged is
/// skipped, not queued.
pub fn plan_capture_tick(
    counters: &ControlCounters,
    ui: &UiState,
    session: &Option<SessionToken>,
    now_ms: u64,
) -> (r: TickPlan)
    ensures
        !counters.capturing ==> r matches TickPlan::NotCapturing,
        counters.capturing && ui.auth != UiAuthState::Authenticated ==> r matches
            TickPlan::SessionInvalid,
        counters.capturing && ui.auth == UiAuthState::Authenticated && ui.selected_display is None
            ==> r matches TickPlan::NoDisplay,
        counters.capturing && ui.auth == UiAuthState::Authenticated && ui.selected_display is Some
            && counters.tick_in_flight ==> r matches TickPlan::InFlightSkip,
        counters.capturing && ui.auth == UiAuthState::Authenticated && ui.selected_display is Some
            && !counters.tick_in_flight && session is None ==> r matches TickPlan::NoSession,
        counters.capturing && ui.auth == UiAuthState::Authenticated && ui.selected_display is Some
            && !counters.tick_in_flight && session is Some ==> (r matches TickPlan::Issue(cmd)
            && cmd matches WorkerCommand::CaptureTick { display_id, session_id, captured_at_ms }
            && (ui.selected_display matches Some(d) && display_id@ == d@) && (session matches Some(
            t,
        ) && session_id@ == t.session_id@) && captured_at_ms == now_ms),
{
    if !counters.capturing {
        return TickPlan::NotCapturing;
    }
    if !(ui.auth == UiAuthState::Authenticated) {
        return TickPlan::SessionInvalid;
    }
    let display_id = match &ui.selected_display {
        Some(display_id) => display_id.clone(),
        None => { return TickPlan::NoDisplay },
    };
    if counters.tick_in_flight {
        return TickPlan::InFlightSkip;
    }
    let token = match session {
        Some(token) => token,
        None => { return TickPlan::NoSession },
    };
    TickPlan::Issue(
        WorkerCommand::CaptureTick {
            display_id,
            session_id: token.session_id.clone(),
            captured_at_ms: now_ms,
        },
    )
}

/// Marks a tick as issued.
pub fn note_tick_issued(counters: &mut ControlCounters, ui: &mut UiState)
    ensures
        final(counters).tick_in_flight,
        final(counters).capturing == old(counters).capturing,
        final(counters).frames_buffered == old(counters).frames_buffered,
        final(counters).current_frame_number == old(counters).current_frame_number,
        final(counters).prepared_batches == old(counters).prepared_batches,
        final(ui).upload == StageStatus::Running,
        final(ui).capture == old(ui).capture,
        final(ui).network == old(ui).network,
        final(ui).version == old(ui).version,
        final(ui).auth == old(ui).auth,
        final(ui).consent_granted == old(ui).consent_granted,
        final(ui).selected_display == old(ui).selected_display,
        final(ui).analysis_status == old(ui).analysis_status,
{
    counters.tick_in_flight = true;
    ui.upload = StageStatus::Running;
}

/// Applies one worker event to the control state.
///
/// A completed tick clears the in-flight flag and updates the counters; a
/// prepared batch empties the buffered count and marks the upload stage
/// healthy; a worker error stops the run and degrades the capture and
/// upload stages.
pub fn apply_worker_event(counters: &mut ControlCounters, ui: &mut UiState, event: &WorkerEvent)
    ensures
        event matches WorkerEvent::TickCaptured { frame_number, buffered_frames } ==> (!final(counters).tick_in_flight && final(counters).current_frame_number == frame_number && final(counters).frames_buffered == buffered_frames && final(counters).capturing == old(counters).capturing && final(counters).prepared_batches == old(counters).prepared_batches && *final(ui) == *old(ui)),
        event matches WorkerEvent::BatchPrepared { frame_number, prepared_batches, .. } ==> (final(counters).current_frame_number == frame_number && final(counters).prepared_batches
            == prepared_batches && final(counters).frames_buffered == 0 && final(counters).capturing == old(counters).capturing && final(counters).tick_in_flight == old(counters).tick_in_flight && final(ui).upload == StageStatus::Healthy && final(ui).capture == old(ui).capture && final(ui).network == old(ui).network && final(ui).version == old(ui).version
            && final(ui).auth == old(ui).auth && final(ui).consent_granted == old(ui).consent_granted && final(ui).selected_display == old(ui).selected_display && final(ui).analysis_status == old(ui).analysis_status),
        event matches WorkerEvent::WorkerError(_) ==> (!final(counters).capturing && !final(counters).tick_in_flight && final(counters).current_frame_number == old(counters).current_frame_number && final(counters).prepared_batches == old(counters).prepared_batches && final(counters).frames_buffered == old(counters).frames_buffered
            && final(ui).capture == StageStatus::Degraded && final(ui).upload
            == StageStatus::Degraded && final(ui).network == old(ui).network && final(ui).version
            == old(ui).version && final(ui).auth == old(ui).auth && final(ui).consent_granted
            == old(ui).consent_granted && final(ui).selected_display == old(ui).selected_display
            && final(ui).analysis_status == old(ui).analysis_status),
{
    match event {
        WorkerEvent::TickCaptured { frame_number, buffered_frames } => {
            counters.tick_in_flight = false;
            counters.current_frame_number = *frame_number;
            counters.frames_buffered = *buffered_frames;
        },
        WorkerEvent::BatchPrepared { frame_number, prepared_batches, .. } => {
            counters.current_frame_number = *frame_number;
            counters.prepared_batches = *prepared_batches;
            counters.frames_buffered = 0;
            ui.upload = StageStatus::Healthy;
        },
        WorkerEvent::WorkerError(_) => {
            counters.capturing = false;
            counters.tick_in_flight = false;
            ui.capture = StageStatus::Degraded;
            ui.upload = StageStatus::Degraded;
        },
    }
}

/// The UI projection of an auth state.
pub open spec fn spec_ui_auth_of(state: AuthState) -> UiAuthState {
    match state {
        AuthState::Unauthenticated => UiAuthState::Unauthenticated,
        AuthState::Authenticated(_) => UiAuthState::Authenticated,
        AuthState::ReauthRequired => UiAuthState::ReauthRequired,
    }
}

/// Re-evaluates the auth machine against the clock and mirrors its state
/// into the UI; a session token is held only while authenticated.
pub fn sync_auth_state(
    machine: &mut AuthStateMachine,
    ui: &mut UiState,
    session: &mut Option<SessionToken>,
    now_ms: u64,
)
    ensures
        (old(machine).spec_state() matches AuthState::Authenticated(token) && now_ms
            >= token.expires_at_ms) ==> final(machine).spec_state() == AuthState::ReauthRequired,
        !(old(machine).spec_state() matches AuthState::Authenticated(token) && now_ms
            >= token.expires_at_ms) ==> final(machine).spec_state() == old(machine).spec_state(),
        final(ui).auth == spec_ui_auth_of(final(machine).spec_state()),
        final(ui).auth == UiAuthState::Authenticated ==> *final(session) == *old(session),
        final(ui).auth != UiAuthState::Authenticated ==> *final(session) is None,
        final(ui).capture == old(ui).capture,
        final(ui).network == old(ui).network,
        final(ui).upload == old(ui).upload,
        final(ui).version == old(ui).version,
        final(ui).consent_granted == old(ui).consent_granted,
        final(ui).selected_display == old(ui).selected_display,
        final(ui).analysis_status == old(ui).analysis_status,
{
    machine.on_tick(now_ms);
    ui.auth = match machine.state() {
        AuthState::Unauthenticated => UiAuthState::Unauthenticated,
        AuthState::Authenticated(_) => UiAuthState::Authenticated,
        AuthState::ReauthRequired => UiAuthState::ReauthRequired,
    };
    if !(ui.auth == UiAuthState::Authenticated) {
        *session = None;
    }
}

} // verus!
