use vstd::prelude::*;

verus! {

/// A platform window handle, reduced to what identifies the native window.
///
/// The numeric variants carry the identifier that the platform gives the
/// window; the Apple variant refers to a view, from which no window number
/// can be read without further platform calls.
#[derive(Clone, Copy, Debug, PartialEq, Eq, Structural)]
pub enum WindowHandle {
    /// A Win32 `HWND`.
    Win32(isize),
    /// An X11 (Xlib) window identifier.
    Xlib(u64),
    /// An XCB window identifier.
    Xcb(u32),
    /// An AppKit view pointer, kept only as the fact that it was one.
    AppKit,
    /// Any other platform.
    Other,
}

/// The numeric window identifier that a handle designates, if any: the
/// Win32 handle and the Xlib window truncated to 32 bits, the XCB window as
/// it is, and none for the other variants.
pub open spec fn spec_native_window_id(handle: WindowHandle) -> Option<u32> {
    match handle {
        WindowHandle::Win32(hwnd) => Some(hwnd as u32),
        WindowHandle::Xlib(window) => Some(window as u32),
        WindowHandle::Xcb(window) => Some(window),
        _ => None,
    }
}

/// Reads the numeric window identifier out of a handle.
pub fn native_window_id(handle: &WindowHandle) -> (r: Option<u32>)
    ensures
        r == spec_native_window_id(*handle),
{
    match handle {
        WindowHandle::Win32(hwnd) => Some(*hwnd as u32),
        WindowHandle::Xlib(window) => Some(*window as u32),
        WindowHandle::Xcb(window) => Some(*window),
        _ => None,
    }
}

} // verus!
