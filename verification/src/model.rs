//! Core data model: captured frames, the bounded frame batch, and the
//! metadata derived from a completed batch.

use vstd::prelude::*;

verus! {

/// Error type for core domain validation failures.
#[derive(Debug)]
pub enum CoreError {
    /// Frame buffer shape does not match declared geometry.
    InvalidFrameShape { expected: usize, actual: usize },
    /// Batch capacity must be strictly positive.
    InvalidBatchCapacity,
    /// Frame set cannot be empty for metadata or mosaic operations.
    EmptyFrameSet,
    /// Session id cannot be blank.
    InvalidSessionId,
    /// Frame batch invariants were violated.
    BatchInvariantViolation(String),
    /// Payload encoding or decoding failed.
    Codec(String),
}

impl CoreError {
    /// True exactly when this is a batch-invariant violation.
    pub open spec fn is_batch_invariant_violation(&self) -> bool {
        self matches CoreError::BatchInvariantViolation(_)
    }
}

/// Number of bytes one pixel occupies in an RGBA buffer.
pub open spec fn bytes_per_pixel() -> int {
    4
}

/// Byte length an RGBA buffer must have for the given geometry.
pub open spec fn spec_rgba_len(width: u32, height: u32) -> int {
    width * height * bytes_per_pixel()
}

/// Represents one captured frame from a selected display.
#[derive(Debug, Clone, PartialEq, Eq)]
pub struct Frame {
    /// Stable display identity from the capture backend.
    pub screen_id: String,
    /// Source frame width in pixels.
    pub width: u32,
    /// Source frame height in pixels.
    pub height: u32,
    /// Capture time in Unix epoch milliseconds.
    pub captured_at_ms: u64,
    /// Raw RGBA pixel buffer (`width * height * 4` bytes).
    pub rgba: Vec<u8>,
}

impl Frame {
    /// The frame's buffer matches its declared geometry.
    pub open spec fn wf(&self) -> bool {
        self.rgba@.len() == spec_rgba_len(self.width, self.height)
    }

    /// Two frames come from the same display with the same geometry.
    pub open spec fn compatible(&self, other: &Frame) -> bool {
        &&& self.screen_id@ == other.screen_id@
        &&& self.width == other.width
        &&& self.height == other.height
    }

    /// Constructs a validated frame; fails when the pixel buffer length is
    /// not exactly `width * height * 4`.
    pub fn new(screen_id: &str, width: u32, height: u32, captured_at_ms: u64, rgba: Vec<u8>) -> (r:
        Result<Frame, CoreError>)
        ensures
            spec_rgba_len(width, height) <= usize::MAX && rgba@.len() == spec_rgba_len(
                width,
                height,
            ) ==> (r matches Ok(frame) && frame.screen_id@ == screen_id@ && frame.width == width
                && frame.height == height && frame.captured_at_ms == captured_at_ms && frame.rgba@
                == rgba@ && frame.wf()),
            spec_rgba_len(width, height) <= usize::MAX && rgba@.len() != spec_rgba_len(
                width,
                height,
            ) ==> (r matches Err(e) && e matches CoreError::InvalidFrameShape {
                expected,
                actual,
            } && expected == spec_rgba_len(width, height) && actual == rgba@.len()),
            spec_rgba_len(width, height) > usize::MAX ==> (r matches Err(e)
                && e.is_batch_invariant_violation()),
    {
        let expected_len = match required_rgba_len(width, height) {
            Ok(len) => len,
            Err(e) => { return Err(e) },
        };
        if rgba.len() != expected_len {
            return Err(CoreError::InvalidFrameShape { expected: expected_len, actual: rgba.len() });
        }
        Ok(Frame { screen_id: screen_id.to_owned(), width, height, captured_at_ms, rgba })
    }
}

/// Computes the required RGBA byte length for a geometry, failing instead of
/// wrapping when the product overflows the machine word.
pub fn required_rgba_len(width: u32, height: u32) -> (r: Result<usize, CoreError>)
    ensures
        spec_rgba_len(width, height) <= usize::MAX ==> r == Result::<usize, CoreError>::Ok(
            (spec_rgba_len(width, height) as usize),
        ),
        spec_rgba_len(width, height) > usize::MAX ==> (r matches Err(e)
            && e.is_batch_invariant_violation()),
{
    let pixels = match (width as usize).checked_mul(height as usize) {
        Some(p) => p,
        None => {
            proof {
                assert(width * height > usize::MAX);
                assert(spec_rgba_len(width, height) >= width * height) by (nonlinear_arith);
            }
            return Err(
                CoreError::BatchInvariantViolation(String::from_str("frame dimensions overflow")),
            );
        },
    };
    match pixels.checked_mul(4) {
        Some(len) => Ok(len),
        None => Err(CoreError::BatchInvariantViolation(String::from_str("rgba length overflow"))),
    }
}

/// All frames in the sequence share the first frame's display and geometry.
pub open spec fn homogeneous(frames: Seq<Frame>) -> bool {
    forall|i: int| 0 <= i < frames.len() ==> #[trigger] frames[i].compatible(&frames[0])
}

/// Bounded buffer that emits complete frame batches.
///
/// All buffered frames share one display identity and geometry; the buffer
/// never holds `capacity` or more frames between calls, because the push
/// that reaches `capacity` hands the full set back and resets the buffer.
#[derive(Debug)]
pub struct FrameBatch {
    capacity: usize,
    frames: Vec<Frame>,
}

impl FrameBatch {
    /// Configured batch capacity.
    pub closed spec fn spec_capacity(&self) -> int {
        self.capacity as int
    }

    /// The currently buffered frames, oldest first.
    pub closed spec fn frames_seq(&self) -> Seq<Frame> {
        self.frames@
    }

    /// Structural invariant: positive capacity, buffer strictly below
    /// capacity, and homogeneous contents.
    pub open spec fn inv(&self) -> bool {
        &&& self.spec_capacity() > 0
        &&& self.frames_seq().len() < self.spec_capacity()
        &&& homogeneous(self.frames_seq())
    }

    /// Creates a new bounded frame batch buffer; fails when `capacity == 0`.
    pub fn new(capacity: usize) -> (r: Result<FrameBatch, CoreError>)
        ensures
            capacity == 0 ==> r == Result::<FrameBatch, CoreError>::Err(
                CoreError::InvalidBatchCapacity,
            ),
            capacity != 0 ==> (r matches Ok(b) && b.inv() && b.spec_capacity() == capacity
                && b.frames_seq().len() == 0),
    {
        if capacity == 0 {
            return Err(CoreError::InvalidBatchCapacity);
        }
        Ok(FrameBatch { capacity, frames: Vec::new() })
    }

    /// Pushes one frame into the batch buffer.
    ///
    /// Returns `Ok(None)` while the buffer is below capacity, and
    /// `Ok(Some(frames))` with the full chronological set when this push
    /// brings the buffer to exactly `capacity` frames; the buffer is then
    /// reset to empty. A frame whose display or geometry differs from the
    /// seed frame is rejected and the buffer is left unchanged.
    pub fn push_frame(&mut self, frame: Frame) -> (r: Result<Option<Vec<Frame>>, CoreError>)
        requires
            old(self).inv(),
        ensures
            final(self).inv(),
            final(self).spec_capacity() == old(self).spec_capacity(),
            old(self).frames_seq().len() > 0 && !frame.compatible(&old(self).frames_seq()[0])
                ==> (r matches Err(e) && e.is_batch_invariant_violation() && final(self).frames_seq()
                == old(self).frames_seq()),
            (old(self).frames_seq().len() == 0 || frame.compatible(&old(self).frames_seq()[0]))
                && old(self).frames_seq().len() + 1 == old(self).spec_capacity() ==> (r matches Ok(
                emitted,
            ) && emitted matches Some(batch) && batch@ == old(self).frames_seq().push(frame)
                && final(self).frames_seq().len() == 0),
            (old(self).frames_seq().len() == 0 || frame.compatible(&old(self).frames_seq()[0]))
                && old(self).frames_seq().len() + 1 < old(self).spec_capacity() ==> (r
                == Result::<Option<Vec<Frame>>, CoreError>::Ok(None) && final(self).frames_seq()
                == old(self).frames_seq().push(frame)),
    {
        if self.frames.len() > 0 {
            let first = &self.frames[0];
            if !(first.screen_id == frame.screen_id && first.width == frame.width && first.height
                == frame.height) {
                return Err(
                    CoreError::BatchInvariantViolation(
                        String::from_str("frame does not match active batch display or geometry"),
                    ),
                );
            }
        }
        let ghost old_frames = self.frames@;
        self.frames.push(frame);
        assert(self.frames@ == old_frames.push(frame));
        if self.frames.len() == self.capacity {
            let mut emitted: Vec<Frame> = Vec::new();
            core::mem::swap(&mut emitted, &mut self.frames);
            return Ok(Some(emitted));
        }
        Ok(None)
    }

    /// Returns the current buffered frame count.
    pub fn len(&self) -> (r: usize)
        ensures
            r == self.frames_seq().len(),
    {
        self.frames.len()
    }

    /// Returns the configured batch capacity.
    pub fn capacity(&self) -> (r: usize)
        ensures
            r == self.spec_capacity(),
    {
        self.capacity
    }

    /// Returns `true` when no frames are buffered.
    pub fn is_empty(&self) -> (r: bool)
        ensures
            r == (self.frames_seq().len() == 0),
    {
        self.frames.len() == 0
    }
}

/// Metadata attached to each upload payload, derived from a completed batch.
#[derive(Debug, Clone, PartialEq, Eq)]
pub struct BatchMetadata {
    /// Inclusive start timestamp of the batch window.
    pub start_timestamp_ms: u64,
    /// Inclusive end timestamp of the batch window.
    pub end_timestamp_ms: u64,
    /// Display identity propagated from the frame source.
    pub screen_id: String,
    /// Source frame width.
    pub source_width: u32,
    /// Source frame height.
    pub source_height: u32,
    /// Session identifier assigned by the auth layer.
    pub session_id: String,
    /// Number of frames used in the batch.
    pub frame_count: usize,
}

/// Versioned payload prepared for the protected ingest API.
#[derive(Debug, Clone, PartialEq, Eq)]
pub struct MosaicPayload {
    /// Payload schema version for server contract negotiation.
    pub schema_version: String,
    /// Batch metadata for traceability.
    pub metadata: BatchMetadata,
    /// Mosaic image width in pixels.
    pub mosaic_width: u32,
    /// Mosaic image height in pixels.
    pub mosaic_height: u32,
    /// Mosaic pixel bytes in RGBA row-major layout.
    pub mosaic_rgba: Vec<u8>,
}

/// Minimum capture timestamp over a non-empty prefix of `frames`.
pub open spec fn min_captured_at(frames: Seq<Frame>, n: int) -> int
    recommends
        1 <= n <= frames.len(),
    decreases n,
{
    if n <= 1 {
        frames[0].captured_at_ms as int
    } else {
        let rest = min_captured_at(frames, n - 1);
        if frames[n - 1].captured_at_ms < rest {
            frames[n - 1].captured_at_ms as int
        } else {
            rest
        }
    }
}

/// Maximum capture timestamp over a non-empty prefix of `frames`.
pub open spec fn max_captured_at(frames: Seq<Frame>, n: int) -> int
    recommends
        1 <= n <= frames.len(),
    decreases n,
{
    if n <= 1 {
        frames[0].captured_at_ms as int
    } else {
        let rest = max_captured_at(frames, n - 1);
        if frames[n - 1].captured_at_ms > rest {
            frames[n - 1].captured_at_ms as int
        } else {
            rest
        }
    }
}

/// The metadata correctly describes a non-empty frame set and session: the
/// timestamp window is the minimum and maximum capture time, and identity,
/// geometry and counts are taken from the frames.
pub open spec fn spec_metadata_ok(m: BatchMetadata, frames: Seq<Frame>, session_id: Seq<char>) -> bool {
    &&& m.start_timestamp_ms == min_captured_at(frames, frames.len() as int)
    &&& m.end_timestamp_ms == max_captured_at(frames, frames.len() as int)
    &&& m.screen_id@ == frames[0].screen_id@
    &&& m.source_width == frames[0].width
    &&& m.source_height == frames[0].height
    &&& m.session_id@ == session_id
    &&& m.frame_count == frames.len()
}

/// Computes batch metadata from a completed frame set.
///
/// The timestamp window is the minimum and maximum of `captured_at_ms`
/// across the set; the input is not assumed to be sorted.
pub fn build_metadata(frames: &Vec<Frame>, session_id: &str) -> (r: Result<
    BatchMetadata,
    CoreError,
>)
    ensures
        frames@.len() == 0 ==> r == Result::<BatchMetadata, CoreError>::Err(CoreError::EmptyFrameSet),
        frames@.len() > 0 && crate::text::spec_is_blank(session_id@) ==> r == Result::<
            BatchMetadata,
            CoreError,
        >::Err(CoreError::InvalidSessionId),
        frames@.len() > 0 && !crate::text::spec_is_blank(session_id@) && !homogeneous(frames@) ==> (
        r matches Err(e) && e.is_batch_invariant_violation()),
        frames@.len() > 0 && !crate::text::spec_is_blank(session_id@) && homogeneous(frames@) ==> (
        r matches Ok(m) && spec_metadata_ok(m, frames@, session_id@)),
{
    if frames.len() == 0 {
        return Err(CoreError::EmptyFrameSet);
    }
    if crate::text::is_blank(session_id) {
        return Err(CoreError::InvalidSessionId);
    }

    let first = &frames[0];
    let mut start: u64 = first.captured_at_ms;
    let mut end: u64 = first.captured_at_ms;
    let mut i: usize = 1;
    while i < frames.len()
        invariant
            1 <= i <= frames@.len(),
            !crate::text::spec_is_blank(session_id@),
            forall|j: int| 0 <= j < i ==> #[trigger] frames@[j].compatible(&frames@[0]),
            start == min_captured_at(frames@, i as int),
            end == max_captured_at(frames@, i as int),
        decreases frames@.len() - i,
    {
        let frame = &frames[i];
        if !(frame.screen_id == frames[0].screen_id && frame.width == frames[0].width
            && frame.height == frames[0].height) {
            proof {
                assert(!frames@[i as int].compatible(&frames@[0]));
                assert(!homogeneous(frames@));
            }
            return Err(
                CoreError::BatchInvariantViolation(
                    String::from_str(
                        "metadata cannot be built from mixed display identities or dimensions",
                    ),
                ),
            );
        }
        if frame.captured_at_ms < start {
            start = frame.captured_at_ms;
        }
        if frame.captured_at_ms > end {
            end = frame.captured_at_ms;
        }
        i = i + 1;
    }

    Ok(
        BatchMetadata {
            start_timestamp_ms: start,
            end_timestamp_ms: end,
            screen_id: frames[0].screen_id.clone(),
            source_width: frames[0].width,
            source_height: frames[0].height,
            session_id: session_id.to_owned(),
            frame_count: frames.len(),
        },
    )
}

/// Produces deterministic tile order for temporal mosaics: the indices
/// `0 .. batch_size` in chronological order.
pub fn deterministic_tile_order(batch_size: usize) -> (r: Result<Vec<usize>, CoreError>)
    ensures
        batch_size == 0 ==> r == Result::<Vec<usize>, CoreError>::Err(
            CoreError::InvalidBatchCapacity,
        ),
        batch_size != 0 ==> (r matches Ok(order) && order@.len() == batch_size && forall|i: int|
            0 <= i < batch_size ==> order@[i] == i),
{
    if batch_size == 0 {
        return Err(CoreError::InvalidBatchCapacity);
    }
    let mut order: Vec<usize> = Vec::new();
    let mut i: usize = 0;
    while i < batch_size
        invariant
            i <= batch_size,
            order@.len() == i,
            forall|j: int| 0 <= j < i ==> order@[j] == j,
        decreases batch_size - i,
    {
        order.push(i);
        i = i + 1;
    }
    Ok(order)
}

} // verus!
