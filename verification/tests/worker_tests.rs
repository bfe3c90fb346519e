//! Tests for the capture worker protocol and control-side decisions.

use local_guard::auth::{AuthState, AuthStateMachine, SessionToken};
use local_guard::capture::SyntheticCaptureBackend;
use local_guard::control::{
    apply_worker_event, begin_capture, decide_start, end_capture, note_tick_issued,
    plan_capture_tick, sync_auth_state, ControlCounters, StartDecision, TickPlan,
};
use local_guard::ui::{StageStatus, UiAuthState, UiState};
use local_guard::worker::{CaptureWorker, WorkerCommand, WorkerEvent};

fn tick(display: &str, n: u64) -> WorkerCommand {
    WorkerCommand::CaptureTick {
        display_id: display.to_string(),
        session_id: "session-1".to_string(),
        captured_at_ms: n,
    }
}

#[test]
fn worker_prepares_a_batch_after_nine_ticks() {
    let mut worker = CaptureWorker::new(SyntheticCaptureBackend::new());
    for n in 0..8_u64 {
        let (events, go_on) = worker.handle_command(tick("display-1", n));
        assert!(go_on);
        assert_eq!(events.len(), 1);
        match &events[0] {
            WorkerEvent::TickCaptured {
                frame_number,
                buffered_frames,
            } => {
                assert_eq!(*frame_number, n + 1);
                assert_eq!(*buffered_frames, (n + 1) as usize);
            }
            other => panic!("expected a tick event, got {other:?}"),
        }
    }

    let (events, go_on) = worker.handle_command(tick("display-1", 8));
    assert!(go_on);
    assert_eq!(events.len(), 2);
    match &events[1] {
        WorkerEvent::BatchPrepared {
            frame_number,
            prepared_batches,
            mosaic_width,
            mosaic_height,
            payload,
        } => {
            assert_eq!(*frame_number, 9);
            assert_eq!(*prepared_batches, 1);
            assert_eq!(*mosaic_width, 12);
            assert_eq!(*mosaic_height, 12);
            assert_eq!(payload.metadata.session_id, "session-1");
            assert_eq!(payload.metadata.frame_count, 9);
        }
        other => panic!("expected a prepared batch, got {other:?}"),
    }
}

#[test]
fn worker_survives_capture_failures_and_resets() {
    let mut worker = CaptureWorker::new(SyntheticCaptureBackend::new());
    let (events, go_on) = worker.handle_command(tick("display-9", 0));
    assert!(go_on);
    assert!(matches!(events[0], WorkerEvent::WorkerError(_)));

    let (_, go_on) = worker.handle_command(tick("display-1", 1));
    assert!(go_on);
    let (events, go_on) = worker.handle_command(WorkerCommand::ResetBatch);
    assert!(go_on);
    assert!(events.is_empty());

    let (events, _) = worker.handle_command(tick("display-1", 2));
    match &events[0] {
        WorkerEvent::TickCaptured { frame_number, .. } => assert_eq!(*frame_number, 1),
        other => panic!("expected a tick event, got {other:?}"),
    }

    let (events, go_on) = worker.handle_command(WorkerCommand::Shutdown);
    assert!(!go_on);
    assert!(events.is_empty());
}

fn ready_ui() -> UiState {
    let mut ui = UiState::new("v0.1.0");
    ui.auth = UiAuthState::Authenticated;
    ui.set_consent(true);
    ui.select_display("display-1");
    ui
}

#[test]
fn start_gate_checks_kill_switch_running_state_and_ui_gates() {
    let ui = ready_ui();
    assert_eq!(decide_start(false, false, &ui), StartDecision::KillSwitchBlocked);
    assert_eq!(decide_start(true, true, &ui), StartDecision::AlreadyRunning);
    assert_eq!(
        decide_start(true, false, &UiState::new("v0.1.0")),
        StartDecision::GatesNotMet
    );
    assert_eq!(decide_start(true, false, &ui), StartDecision::Start);
}

fn session() -> Option<SessionToken> {
    Some(SessionToken {
        access_token: "token".to_string(),
        session_id: "session-1".to_string(),
        expires_at_ms: 1_000,
    })
}

#[test]
fn tick_planning_enforces_one_tick_in_flight() {
    let mut counters = ControlCounters::new();
    let mut ui = ready_ui();
    begin_capture(&mut counters, &mut ui);
    assert!(counters.capturing);
    assert_eq!(ui.capture, StageStatus::Running);

    match plan_capture_tick(&counters, &ui, &session(), 500) {
        TickPlan::Issue(WorkerCommand::CaptureTick {
            display_id,
            session_id,
            captured_at_ms,
        }) => {
            assert_eq!(display_id, "display-1");
            assert_eq!(session_id, "session-1");
            assert_eq!(captured_at_ms, 500);
        }
        other => panic!("expected an issued tick, got {other:?}"),
    }

    note_tick_issued(&mut counters, &mut ui);
    assert!(matches!(
        plan_capture_tick(&counters, &ui, &session(), 501),
        TickPlan::InFlightSkip
    ));

    let mut idle = ControlCounters::new();
    assert!(matches!(
        plan_capture_tick(&idle, &ui, &session(), 502),
        TickPlan::NotCapturing
    ));
    idle.capturing = true;
    assert!(matches!(
        plan_capture_tick(&idle, &ui, &None, 503),
        TickPlan::NoSession
    ));
    let mut unauth = ready_ui();
    unauth.auth = UiAuthState::ReauthRequired;
    assert!(matches!(
        plan_capture_tick(&idle, &unauth, &session(), 504),
        TickPlan::SessionInvalid
    ));
}

#[test]
fn worker_events_drive_the_control_counters() {
    let mut counters = ControlCounters::new();
    let mut ui = ready_ui();
    begin_capture(&mut counters, &mut ui);
    note_tick_issued(&mut counters, &mut ui);

    apply_worker_event(
        &mut counters,
        &mut ui,
        &WorkerEvent::TickCaptured {
            frame_number: 3,
            buffered_frames: 3,
        },
    );
    assert!(!counters.tick_in_flight);
    assert_eq!(counters.current_frame_number, 3);
    assert_eq!(counters.frames_buffered, 3);

    apply_worker_event(
        &mut counters,
        &mut ui,
        &WorkerEvent::BatchPrepared {
            frame_number: 9,
            prepared_batches: 1,
            mosaic_width: 12,
            mosaic_height: 12,
            payload: local_guard::pipeline::batch_to_payload(
                &nine_frames(),
                "session-1",
            )
            .expect("payload should build"),
        },
    );
    assert_eq!(counters.prepared_batches, 1);
    assert_eq!(counters.frames_buffered, 0);
    assert_eq!(ui.upload, StageStatus::Healthy);

    apply_worker_event(
        &mut counters,
        &mut ui,
        &WorkerEvent::WorkerError("boom".to_string()),
    );
    assert!(!counters.capturing);
    assert_eq!(ui.capture, StageStatus::Degraded);
    assert_eq!(ui.upload, StageStatus::Degraded);

    end_capture(&mut counters, &mut ui);
    assert_eq!(ui.capture, StageStatus::Idle);
}

fn nine_frames() -> Vec<local_guard::model::Frame> {
    let mut frames = Vec::new();
    for index in 0..9_u64 {
        frames.push(
            local_guard::model::Frame::new("display-1", 1, 1, index, vec![0, 0, 0, 255])
                .expect("frame should be valid"),
        );
    }
    frames
}

#[test]
fn auth_sync_mirrors_machine_state_and_clears_stale_sessions() {
    let mut machine = AuthStateMachine::new();
    machine.on_login_success(SessionToken {
        access_token: "token".to_string(),
        session_id: "session-1".to_string(),
        expires_at_ms: 100,
    });
    let mut ui = ready_ui();
    let mut held = session();

    sync_auth_state(&mut machine, &mut ui, &mut held, 50);
    assert_eq!(ui.auth, UiAuthState::Authenticated);
    assert!(held.is_some());

    sync_auth_state(&mut machine, &mut ui, &mut held, 100);
    assert_eq!(ui.auth, UiAuthState::ReauthRequired);
    assert!(held.is_none());
    assert!(matches!(machine.state(), AuthState::ReauthRequired));
}
