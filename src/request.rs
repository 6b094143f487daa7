use vstd::prelude::*;
use crate::handle::WindowHandle;
use crate::pixels::CapturedImage;

verus! {

/// A capture request for the window whose record identity is `target`.
#[derive(Clone, Copy, Debug, PartialEq, Eq, Structural)]
pub struct NativeScreenshot {
    pub target: u64,
}

impl NativeScreenshot {
    /// A request to capture the window `window`.
    pub fn window(window: u64) -> (r: Self)
        ensures
            r.target == window,
    {
        NativeScreenshot { target: window }
    }
}

/// Marks a request whose worker is reading pixels.
#[derive(Clone, Copy, Debug, Default, PartialEq, Eq, Structural)]
pub struct Capturing;

/// Marks a request whose pixels have arrived and whose event is being fired.
#[derive(Clone, Copy, Debug, Default, PartialEq, Eq, Structural)]
pub struct Captured;

/// The event delivered once to the callback of a request that succeeded.
#[derive(Clone, Debug)]
pub struct NativeScreenshotCaptured {
    pub entity: u64,
    pub width: u32,
    pub height: u32,
    pub rgba: Vec<u8>,
}

/// Why a capture did not produce an image.
#[derive(Clone, Debug)]
pub enum CaptureError {
    /// The capture facility could not list the OS windows; its message.
    EnumerationFailed(String),
    /// No OS window matched the numeric identifier or the title.
    NoMatchingWindow,
    /// The capture facility failed to read the window's pixels; its message.
    CaptureFailed(String),
    /// The pixels read do not fit the dimensions reported with them.
    MalformedImage { width: u32, height: u32, len: usize },
}

/// A request seen for the first time by the coordinator: its identity, the
/// handle of its target window if that window has one, and a snapshot of the
/// window's title if one could be read.
#[derive(Clone, Debug)]
pub struct NewRequest {
    pub id: u64,
    pub handle: Option<WindowHandle>,
    pub title: Option<String>,
}

/// Work handed to a capture worker: locate the window and read its pixels,
/// then report under `id`.
#[derive(Clone, Debug)]
pub struct CaptureJob {
    pub id: u64,
    pub handle: WindowHandle,
    pub title: Option<String>,
}

/// What the loop does with a new request.
#[derive(Clone, Debug)]
pub enum Dispatch {
    /// Mark the request as capturing and start a worker on the job.
    Launch(CaptureJob),
    /// The target window has no handle: warn, and remove the request record.
    Retire(u64),
    /// The identity is already known to the coordinator: do nothing.
    Ignore,
}

/// What the loop does with a worker's report.
#[derive(Clone, Debug)]
pub enum Completion {
    /// Fire the event at the request's callback, then remove the record.
    Fire(NativeScreenshotCaptured),
    /// Warn with the error, then remove the record; no event.
    Fail(u64, CaptureError),
    /// The report belongs to no live request: discard it.
    Drop,
}

} // verus!
