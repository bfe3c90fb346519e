//! The capture worker's command/event protocol: one state machine that
//! owns the backend and the active frame batch, processes commands
//! sequentially, and never lets a failed tick kill the worker.

use vstd::prelude::*;
use crate::capture::CaptureBackend;
use crate::model::{Frame, FrameBatch, MosaicPayload, required_rgba_len};
use crate::num::sat_add_u64;
use crate::pipeline::batch_to_payload;

verus! {

/// Command sent from the control thread to the capture worker.
#[derive(Debug, Clone)]
pub enum WorkerCommand {
    /// Capture one frame from the given display under the given session.
    CaptureTick {
        /// Display to capture from.
        display_id: String,
        /// Session id stamped into prepared payloads.
        session_id: String,
        /// Capture time in epoch milliseconds.
        captured_at_ms: u64,
    },
    /// Discard the current partial batch and reset counters.
    ResetBatch,
    /// Leave the worker loop.
    Shutdown,
}

/// Event emitted by the capture worker for the control thread.
#[derive(Debug, Clone)]
pub enum WorkerEvent {
    /// One frame was captured and buffered.
    TickCaptured {
        /// Total frames captured since the last reset.
        frame_number: u64,
        /// Frames currently buffered in the batch.
        buffered_frames: usize,
    },
    /// A full batch was turned into an upload payload.
    BatchPrepared {
        /// Total frames captured since the last reset.
        frame_number: u64,
        /// Total batches prepared since the last reset.
        prepared_batches: u64,
        /// Mosaic width of the prepared payload.
        mosaic_width: u32,
        /// Mosaic height of the prepared payload.
        mosaic_height: u32,
        /// The prepared upload payload.
        payload: MosaicPayload,
    },
    /// A step of the tick failed; the worker keeps running.
    WorkerError(String),
}

/// The capture worker's state: the backend, the active nine-frame batch,
/// and the tick/batch counters.
pub struct CaptureWorker<B: CaptureBackend> {
    backend: B,
    batch: FrameBatch,
    frame_number: u64,
    prepared_batches: u64,
}

impl<B: CaptureBackend> CaptureWorker<B> {
    /// Frames captured since the last reset.
    pub closed spec fn spec_frame_number(&self) -> u64 {
        self.frame_number
    }

    /// Batches prepared since the last reset.
    pub closed spec fn spec_prepared_batches(&self) -> u64 {
        self.prepared_batches
    }

    /// Frames currently buffered.
    pub closed spec fn spec_buffered(&self) -> int {
        self.batch.frames_seq().len() as int
    }

    /// Structural invariant: the batch is well-formed with capacity nine.
    pub open spec fn inv(&self) -> bool {
        &&& self.spec_batch_inv()
    }

    /// The batch invariant and fixed capacity, kept abstract.
    pub closed spec fn spec_batch_inv(&self) -> bool {
        self.batch.inv() && self.batch.spec_capacity() == 9
    }

    /// Creates a worker with an empty nine-frame batch and zeroed
    /// counters.
    pub fn new(backend: B) -> (r: CaptureWorker<B>)
        ensures
            r.inv(),
            r.spec_frame_number() == 0,
            r.spec_prepared_batches() == 0,
            r.spec_buffered() == 0,
    {
        let batch = match FrameBatch::new(9) {
            Ok(batch) => batch,
            Err(_) => vstd::pervasive::unreached(),
        };
        CaptureWorker { backend, batch, frame_number: 0, prepared_batches: 0 }
    }

    /// Processes one command and returns the events to emit plus whether
    /// the worker loop continues.
    ///
    /// `Shutdown` stops the loop without touching state. `ResetBatch`
    /// discards the partial batch and zeroes the counters. `CaptureTick`
    /// captures one frame and buffers it; any failure surfaces as a
    /// `WorkerError` event and leaves the counters unchanged, never
    /// killing the worker. A tick that completes the batch additionally
    /// prepares the upload payload for that batch.
    pub fn handle_command(&mut self, cmd: WorkerCommand) -> (r: (Vec<WorkerEvent>, bool))
        requires
            old(self).inv(),
        ensures
            final(self).inv(),
            cmd matches WorkerCommand::Shutdown ==> !r.1 && r.0@.len() == 0 && *final(self)
                == *old(self),
            cmd matches WorkerCommand::ResetBatch ==> r.1 && r.0@.len() == 0 && final(self).spec_frame_number() == 0 && final(self).spec_prepared_batches() == 0 && final(self).spec_buffered() == 0,
            cmd matches WorkerCommand::CaptureTick { .. } ==> r.1 && 1 <= r.0@.len() <= 2,
            cmd matches WorkerCommand::CaptureTick { .. } ==> (r.0@[0] matches
                WorkerEvent::WorkerError(_) ==> r.0@.len() == 1 && final(self).spec_frame_number()
                == old(self).spec_frame_number() && final(self).spec_prepared_batches() == old(self).spec_prepared_batches() && final(self).spec_buffered() == old(self).spec_buffered()),
            cmd matches WorkerCommand::CaptureTick { .. } ==> (r.0@[0] matches
                WorkerEvent::TickCaptured { frame_number, buffered_frames } ==> frame_number
                == sat_add_u64(old(self).spec_frame_number(), 1) && frame_number == final(self).spec_frame_number() && buffered_frames == final(self).spec_buffered() && (old(self).spec_buffered() + 1 < 9 ==> final(self).spec_buffered() == old(self).spec_buffered() + 1 && r.0@.len() == 1) && (old(self).spec_buffered() + 1 == 9 ==> final(self).spec_buffered() == 0 && r.0@.len() == 2)),
            cmd matches WorkerCommand::CaptureTick { session_id, .. } ==> (r.0@.len() == 2 ==> (
            r.0@[1] matches WorkerEvent::BatchPrepared {
                frame_number,
                prepared_batches,
                payload,
                ..
            } ==> frame_number == final(self).spec_frame_number() && prepared_batches
                == sat_add_u64(old(self).spec_prepared_batches(), 1) && prepared_batches == final(self).spec_prepared_batches() && payload.schema_version@ == "v1"@
                && payload.metadata.session_id@ == session_id@ && payload.metadata.frame_count
                == 9)),
    {
        match cmd {
            WorkerCommand::Shutdown => (Vec::new(), false),
            WorkerCommand::ResetBatch => {
                self.frame_number = 0;
                self.prepared_batches = 0;
                self.batch = match FrameBatch::new(9) {
                    Ok(batch) => batch,
                    Err(_) => vstd::pervasive::unreached(),
                };
                (Vec::new(), true)
            },
            WorkerCommand::CaptureTick { display_id, session_id, captured_at_ms } => {
                let mut events: Vec<WorkerEvent> = Vec::new();
                let frame = match self.backend.capture_frame(display_id.as_str(), captured_at_ms) {
                    Ok(frame) => frame,
                    Err(_) => {
                        events.push(
                            WorkerEvent::WorkerError(String::from_str("frame capture failed")),
                        );
                        return (events, true);
                    },
                };
                let maybe_batch = match self.batch.push_frame(frame) {
                    Ok(maybe_batch) => maybe_batch,
                    Err(_) => {
                        events.push(
                            WorkerEvent::WorkerError(
                                String::from_str(
                                    "frame does not match the active batch display or geometry",
                                ),
                            ),
                        );
                        return (events, true);
                    },
                };
                self.frame_number = self.frame_number.saturating_add(1);
                events.push(
                    WorkerEvent::TickCaptured {
                        frame_number: self.frame_number,
                        buffered_frames: self.batch.len(),
                    },
                );
                let frames = match maybe_batch {
                    Some(frames) => frames,
                    None => { return (events, true) },
                };
                if !frames_well_formed(&frames) {
                    events.push(
                        WorkerEvent::WorkerError(
                            String::from_str("captured frame bytes do not match their geometry"),
                        ),
                    );
                    return (events, true);
                }
                let payload = match batch_to_payload(&frames, session_id.as_str()) {
                    Ok(payload) => payload,
                    Err(_) => {
                        events.push(
                            WorkerEvent::WorkerError(
                                String::from_str("payload preparation failed"),
                            ),
                        );
                        return (events, true);
                    },
                };
                self.prepared_batches = self.prepared_batches.saturating_add(1);
                let mosaic_width = payload.mosaic_width;
                let mosaic_height = payload.mosaic_height;
                events.push(
                    WorkerEvent::BatchPrepared {
                        frame_number: self.frame_number,
                        prepared_batches: self.prepared_batches,
                        mosaic_width,
                        mosaic_height,
                        payload,
                    },
                );
                (events, true)
            },
        }
    }
}

/// Checks that every frame's buffer matches its declared geometry.
fn frames_well_formed(frames: &Vec<Frame>) -> (r: bool)
    ensures
        r == (forall|i: int| 0 <= i < frames@.len() ==> (#[trigger] frames@[i]).wf()),
{
    let mut i: usize = 0;
    while i < frames.len()
        invariant
            i <= frames@.len(),
            forall|j: int| 0 <= j < i ==> (#[trigger] frames@[j]).wf(),
        decreases frames@.len() - i,
    {
        let frame = &frames[i];
        let actual = frame.rgba.len();
        let expected = match required_rgba_len(frame.width, frame.height) {
            Ok(expected) => expected,
            Err(_) => {
                proof {
                    assert(!frames@[i as int].wf());
                }
                return false;
            },
        };
        if actual != expected {
            proof {
                assert(!frames@[i as int].wf());
            }
            return false;
        }
        i = i + 1;
    }
    true
}

} // verus!
