//! Capture abstractions: display metadata, FPS scheduling, the
//! backend-agnostic capture trait, and a deterministic synthetic backend.

use vstd::prelude::*;
use crate::model::{Frame, required_rgba_len, spec_rgba_len};
use crate::num::{sat_add_u64, sat_mul_u64, saturating_mul_u64};

verus! {

/// Metadata describing one available display.
#[derive(Debug, Clone)]
pub struct DisplayInfo {
    /// Stable display identifier.
    pub id: String,
    /// Human-readable display name.
    pub name: String,
    /// Native display width in pixels.
    pub width: u32,
    /// Native display height in pixels.
    pub height: u32,
}

/// First index at or after `from` of a display with the given id.
pub open spec fn display_index_from(displays: Seq<DisplayInfo>, id: Seq<char>, from: int) -> Option<
    int,
>
    decreases displays.len() + 1 - from,
        when 0 <= from <= displays.len() + 1
{
    if from >= displays.len() {
        None
    } else if displays[from].id@ == id {
        Some(from)
    } else {
        display_index_from(displays, id, from + 1)
    }
}

/// Finds the first configured display with the given id.
fn find_display(displays: &Vec<DisplayInfo>, display_id: &str) -> (r: Option<usize>)
    ensures
        r matches Some(ix) ==> ix < displays@.len() && display_index_from(
            displays@,
            display_id@,
            0,
        ) == Some(ix as int),
        r is None ==> display_index_from(displays@, display_id@, 0) is None,
{
    let mut i: usize = 0;
    while i < displays.len()
        invariant
            i <= displays@.len(),
            display_index_from(displays@, display_id@, 0) == display_index_from(
                displays@,
                display_id@,
                i as int,
            ),
        decreases displays@.len() - i,
    {
        if crate::text::str_eq(displays[i].id.as_str(), display_id) {
            return Some(i);
        }
        i = i + 1;
    }
    None
}

/// Capture configuration used by schedulers.
#[derive(Debug, Clone, Copy, PartialEq, Eq, Structural)]
pub struct CaptureConfig {
    /// Frames captured per second.
    pub fps: u32,
}

/// Capture layer error type.
#[derive(Debug)]
pub enum CaptureError {
    /// FPS must be positive.
    InvalidFps,
    /// Requested display is unknown to the backend.
    UnknownDisplay(String),
    /// Backend runtime failure.
    Backend(String),
}

impl CaptureConfig {
    /// Creates a validated capture configuration; fails when `fps == 0`.
    pub fn new(fps: u32) -> (r: Result<CaptureConfig, CaptureError>)
        ensures
            fps == 0 ==> r == Result::<CaptureConfig, CaptureError>::Err(CaptureError::InvalidFps),
            fps != 0 ==> r == Result::<CaptureConfig, CaptureError>::Ok(CaptureConfig { fps }),
    {
        if fps == 0 {
            return Err(CaptureError::InvalidFps);
        }
        Ok(CaptureConfig { fps })
    }

    /// The capture interval in milliseconds for this configuration.
    pub open spec fn spec_interval_ms(&self) -> u64 {
        (1000 as u64) / (self.fps as u64)
    }

    /// Returns the capture interval in milliseconds.
    pub fn interval_ms(&self) -> (r: u64)
        requires
            self.fps > 0,
        ensures
            r == self.spec_interval_ms(),
    {
        1000 / (self.fps as u64)
    }
}

/// Trait implemented by concrete capture providers.
pub trait CaptureBackend {
    /// Enumerates the available displays.
    fn list_displays(&self) -> Vec<DisplayInfo>;

    /// Captures one frame from the selected display; fails when the display
    /// id is unknown or the backend cannot produce a frame.
    fn capture_frame(&mut self, display_id: &str, captured_at_ms: u64) -> Result<
        Frame,
        CaptureError,
    >;
}

/// Deterministic synthetic backend for tests and development machines: each
/// capture yields a solid-colour frame whose byte value advances with an
/// internal sequence counter.
#[derive(Debug)]
pub struct SyntheticCaptureBackend {
    displays: Vec<DisplayInfo>,
    sequence: u64,
}

impl SyntheticCaptureBackend {
    /// The displays this backend advertises.
    pub closed spec fn spec_displays(&self) -> Seq<DisplayInfo> {
        self.displays@
    }

    /// The internal capture sequence counter.
    pub closed spec fn spec_sequence(&self) -> u64 {
        self.sequence
    }

    /// Creates a synthetic backend with one default 4x4 display.
    pub fn new() -> (r: SyntheticCaptureBackend)
        ensures
            r.spec_displays().len() == 1,
            r.spec_displays()[0].id@ == "display-1"@,
            r.spec_displays()[0].name@ == "Synthetic Display"@,
            r.spec_displays()[0].width == 4,
            r.spec_displays()[0].height == 4,
            r.spec_sequence() == 0,
    {
        let mut displays: Vec<DisplayInfo> = Vec::new();
        displays.push(
            DisplayInfo {
                id: String::from_str("display-1"),
                name: String::from_str("Synthetic Display"),
                width: 4,
                height: 4,
            },
        );
        SyntheticCaptureBackend { displays, sequence: 0 }
    }

    /// Creates a backend with a caller-provided display list.
    pub fn with_displays(displays: Vec<DisplayInfo>) -> (r: SyntheticCaptureBackend)
        ensures
            r.spec_displays() == displays@,
            r.spec_sequence() == 0,
    {
        SyntheticCaptureBackend { displays, sequence: 0 }
    }

    /// Returns a copy of the advertised display list, in order.
    pub fn display_list(&self) -> (r: Vec<DisplayInfo>)
        ensures
            r@.len() == self.spec_displays().len(),
            forall|i: int|
                0 <= i < r@.len() ==> (#[trigger] r@[i]).id@ == self.spec_displays()[i].id@
                    && r@[i].name@ == self.spec_displays()[i].name@ && r@[i].width
                    == self.spec_displays()[i].width && r@[i].height
                    == self.spec_displays()[i].height,
    {
        let mut out: Vec<DisplayInfo> = Vec::new();
        let mut i: usize = 0;
        while i < self.displays.len()
            invariant
                i <= self.displays@.len(),
                out@.len() == i,
                forall|j: int|
                    0 <= j < i ==> (#[trigger] out@[j]).id@ == self.displays@[j].id@
                        && out@[j].name@ == self.displays@[j].name@ && out@[j].width
                        == self.displays@[j].width && out@[j].height == self.displays@[j].height,
            decreases self.displays@.len() - i,
        {
            out.push(
                DisplayInfo {
                    id: self.displays[i].id.clone(),
                    name: self.displays[i].name.clone(),
                    width: self.displays[i].width,
                    height: self.displays[i].height,
                },
            );
            i = i + 1;
        }
        out
    }

    /// Captures one synthetic frame: the first display whose id matches is
    /// used; an unknown id is rejected and leaves the backend unchanged.
    /// On a match the sequence counter advances by one (wrapping) and the
    /// frame is a solid fill of that counter's value modulo 255, with the
    /// display's geometry and the caller-supplied timestamp.
    pub fn capture(&mut self, display_id: &str, captured_at_ms: u64) -> (r: Result<
        Frame,
        CaptureError,
    >)
        ensures
            final(self).spec_displays() == old(self).spec_displays(),
            display_index_from(old(self).spec_displays(), display_id@, 0) is None ==> (r matches
                Err(e) && e matches CaptureError::UnknownDisplay(d) && d@ == display_id@ && final(self).spec_sequence() == old(self).spec_sequence()),
            display_index_from(old(self).spec_displays(), display_id@, 0) matches Some(ix) ==> ({
                let display = old(self).spec_displays()[ix];
                let sequence = vstd::wrapping::u64_specs::wrapping_add(
                    old(self).spec_sequence(),
                    1,
                );
                &&& final(self).spec_sequence() == sequence
                &&& spec_rgba_len(display.width, display.height) <= usize::MAX ==> (r matches Ok(
                    frame,
                ) && frame.screen_id@ == display.id@ && frame.width == display.width
                    && frame.height == display.height && frame.captured_at_ms == captured_at_ms
                    && frame.rgba@.len() == spec_rgba_len(display.width, display.height) && forall|
                    k: int,
                |
                    0 <= k < frame.rgba@.len() ==> frame.rgba@[k] == (sequence % 255) as u8)
                &&& spec_rgba_len(display.width, display.height) > usize::MAX ==> (r matches Err(e)
                    && e matches CaptureError::Backend(_))
            }),
    {
        let index = match find_display(&self.displays, display_id) {
            Some(index) => index,
            None => { return Err(CaptureError::UnknownDisplay(display_id.to_owned())) },
        };
        let width = self.displays[index].width;
        let height = self.displays[index].height;
        self.sequence = self.sequence.wrapping_add(1);
        let byte = (self.sequence % 255) as u8;
        let rgba_len = match required_rgba_len(width, height) {
            Ok(len) => len,
            Err(_) => {
                return Err(
                    CaptureError::Backend(String::from_str("synthetic frame would overflow")),
                );
            },
        };
        let mut rgba: Vec<u8> = Vec::new();
        let mut k: usize = 0;
        while k < rgba_len
            invariant
                k <= rgba_len,
                rgba@.len() == k,
                forall|j: int| 0 <= j < k ==> rgba@[j] == byte,
            decreases rgba_len - k,
        {
            rgba.push(byte);
            k = k + 1;
        }
        Ok(
            Frame {
                screen_id: self.displays[index].id.clone(),
                width,
                height,
                captured_at_ms,
                rgba,
            },
        )
    }
}

impl CaptureBackend for SyntheticCaptureBackend {
    fn list_displays(&self) -> Vec<DisplayInfo> {
        self.display_list()
    }

    fn capture_frame(&mut self, display_id: &str, captured_at_ms: u64) -> Result<
        Frame,
        CaptureError,
    > {
        self.capture(display_id, captured_at_ms)
    }
}

/// Computes deterministic schedule timestamps for fixed-FPS capture:
/// `count` timestamps starting at `start_ms`, spaced by the configured
/// interval, saturating at the largest representable time.
pub fn scheduled_capture_times(config: CaptureConfig, start_ms: u64, count: usize) -> (r: Vec<u64>)
    requires
        config.fps > 0,
    ensures
        r@.len() == count,
        forall|i: int|
            0 <= i < count ==> r@[i] == sat_add_u64(
                start_ms,
                sat_mul_u64(config.spec_interval_ms(), i as u64),
            ),
{
    let interval = config.interval_ms();
    let mut out: Vec<u64> = Vec::new();
    let mut i: usize = 0;
    while i < count
        invariant
            config.fps > 0,
            interval == config.spec_interval_ms(),
            i <= count,
            out@.len() == i,
            forall|j: int|
                0 <= j < i ==> out@[j] == sat_add_u64(
                    start_ms,
                    sat_mul_u64(config.spec_interval_ms(), j as u64),
                ),
        decreases count - i,
    {
        let step = saturating_mul_u64(interval, i as u64);
        out.push(start_ms.saturating_add(step));
        i = i + 1;
    }
    out
}

} // verus!
