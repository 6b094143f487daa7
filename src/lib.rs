//! Capture the on-screen pixels of one of the application's own OS windows
//! and hand the result back to the interactive loop as a completion event.
//!
//! The library holds the verified decisions: which OS window a platform
//! handle designates, which captured images are well formed, and how each
//! capture request moves through its lifecycle until it is retired.

mod coordinator;
mod handle;
mod lifecycle;
mod locate;
mod pixels;
mod request;

pub use coordinator::{
    id_set, lemma_event_fired_at_most_once, lemma_retired_covers_submitted, Coordinator,
};
pub use handle::{native_window_id, spec_native_window_id, WindowHandle};
pub use lifecycle::{
    dispatched, dispatches, initial, lemma_next_consistent, lemma_run_fires_at_most_once,
    lemma_run_retires_all_submitted, next, run, CoordinatorView, Step,
};
pub use locate::{
    first_id_match, first_title_match, found_by_id, found_by_title, has_id_match, has_title_match,
    id_match, locate_window, located, opt_chars, pick_window, title_match, title_of, WindowInfo,
};
pub use pixels::{image_shape_ok, CapturedImage};
pub use request::{
    CaptureError, CaptureJob, Captured, Capturing, Completion, Dispatch, NativeScreenshot,
    NativeScreenshotCaptured, NewRequest,
};
